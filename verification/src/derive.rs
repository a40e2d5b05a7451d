//! The derivation generator: given a record type's declarative field list —
//! primitive with a default or explicit column or a raw expression, or
//! complex with an optional join clause — it mechanically produces the
//! record-descriptor metadata (tables, joins, select expressions) that a
//! hand-written [`crate::sql_struct::Reconstruct`] impl advertises.
//! Conflicting, duplicate or wrongly typed declarations are rejected here, at
//! definition time, never at query time.

use vstd::prelude::*;
use crate::sql_struct::{Join, JoinClause, SpecJoin, SpecJoinClause};

verus! {

/// A literal attribute value.
#[derive(Debug, PartialEq, Eq)]
pub enum Lit {
    Str(String),
    Bool(bool),
    Int(i64),
}

impl Clone for Lit {
    fn clone(&self) -> (res: Lit)
        ensures
            res == *self,
    {
        match self {
            Lit::Str(s) => Lit::Str(s.clone()),
            Lit::Bool(b) => Lit::Bool(*b),
            Lit::Int(i) => Lit::Int(*i),
        }
    }
}

/// One parsed attribute value.
#[derive(Debug, PartialEq, Eq)]
pub struct Attr {
    pub content: Lit,
}

impl Clone for Attr {
    fn clone(&self) -> (res: Attr)
        ensures
            res == *self,
    {
        Attr { content: self.content.clone() }
    }
}

/// The parsed `key = literal` pairs of one declaration, each key held once.
#[derive(Debug, PartialEq, Eq)]
pub struct ParsedAttributes(pub Vec<(String, Attr)>);

/// Why a declaration was rejected at definition time.
#[derive(Clone, Debug, PartialEq, Eq)]
pub enum AttrError {
    /// The same key was specified multiple times.
    DuplicateKey(String),
    /// The key was given a literal of the wrong kind (for instance a string
    /// where a boolean is required).
    ExpectedStringLiteral(String),
    /// The key was given a literal of the wrong kind.
    ExpectedBoolLiteral(String),
    /// `joined_on` and `condition_in_join` conflict with each other.
    ConflictingJoinOptions,
    /// `column` and `expression` conflict with each other.
    ConflictingColumnOptions,
    /// More than one field claims the caller's filter condition for its join.
    MultipleConditionClaims,
    /// A complex field's nested record declares no table to join on.
    NestedWithoutTable(String),
}

/// The keys of a pair sequence.
pub open spec fn spec_keys(pairs: Seq<(String, Attr)>) -> Seq<Seq<char>> {
    pairs.map_values(|p: (String, Attr)| p.0@)
}

/// Whether the pair sequence holds no key twice.
pub open spec fn spec_unique_keys(pairs: Seq<(String, Attr)>) -> bool {
    forall|i: int, j: int|
        0 <= i < j < pairs.len() ==> spec_keys(pairs)[i] != spec_keys(pairs)[j]
}

/// The first value stored under a key, if any.
pub open spec fn spec_lookup(pairs: Seq<(String, Attr)>, key: Seq<char>) -> Option<Lit>
    decreases pairs.len(),
{
    if pairs.len() == 0 {
        None
    } else if pairs[0].0@ == key {
        Some(pairs[0].1.content)
    } else {
        spec_lookup(pairs.skip(1), key)
    }
}

impl ParsedAttributes {
    /// Every key is held at most once.
    pub open spec fn wf(&self) -> bool {
        spec_unique_keys(self.0@)
    }

    /// The value stored under a key, if any.
    pub open spec fn spec_get(&self, key: Seq<char>) -> Option<Lit> {
        spec_lookup(self.0@, key)
    }

    /// Parses a list of `key = literal` pairs, rejecting a key that appears
    /// twice.
    pub fn parse(pairs: Vec<(String, Lit)>) -> (r: Result<ParsedAttributes, AttrError>)
        ensures
            r matches Ok(p) ==> p.wf(),
            r matches Ok(p) ==> p.0@.len() == pairs@.len() && forall|j: int|
                0 <= j < pairs@.len() ==> (#[trigger] p.0@[j]).0 == pairs@[j].0
                    && p.0@[j].1.content == pairs@[j].1,
            r is Ok <==> spec_pairwise_distinct_keys(pairs@),
            r matches Err(e) ==> e matches AttrError::DuplicateKey(_),
    {
        let mut store: Vec<(String, Attr)> = Vec::new();
        let mut i: usize = 0;
        while i < pairs.len()
            invariant
                0 <= i <= pairs@.len(),
                store@.len() == i,
                forall|j: int| 0 <= j < i ==> store@[j].0 == pairs@[j].0 && store@[j].1.content
                    == pairs@[j].1,
                spec_unique_keys(store@),
                forall|a: int, b: int| 0 <= a < b < i ==> pairs@[a].0@ != pairs@[b].0@,
            decreases pairs@.len() - i,
        {
            let key = pairs[i].0.clone();
            let mut j: usize = 0;
            while j < store.len()
                invariant
                    0 <= j <= store@.len(),
                    0 <= i < pairs@.len(),
                    store@.len() == i,
                    key == pairs@[i as int].0,
                    forall|a: int| 0 <= a < i ==> store@[a].0 == pairs@[a].0,
                    forall|a: int| 0 <= a < j ==> store@[a].0@ != key@,
                decreases store@.len() - j,
            {
                if store[j].0.eq(&key) {
                    proof {
                        assert(pairs@[j as int].0@ == pairs@[i as int].0@);
                    }
                    return Err(AttrError::DuplicateKey(key));
                }
                j = j + 1;
            }
            store.push((key, Attr { content: pairs[i].1.clone() }));
            i = i + 1;
        }
        Ok(ParsedAttributes(store))
    }

    /// Returns the string literal stored under `key`: `None` where the key is
    /// absent, an error where it holds another literal kind.
    pub fn get_str(&self, key: &str) -> (r: Result<Option<String>, AttrError>)
        ensures
            (match self.spec_get(key@) {
                None => r == Ok::<Option<String>, AttrError>(None),
                Some(Lit::Str(s)) => r matches Ok(Some(v)) && v@ == s@,
                Some(_) => r matches Err(e) && e matches AttrError::ExpectedStringLiteral(k) && k@
                    == key@,
            }),
    {
        match self.get(key) {
            None => Ok(None),
            Some(Lit::Str(s)) => Ok(Some(s)),
            Some(_) => Err(AttrError::ExpectedStringLiteral(key.to_owned())),
        }
    }

    /// Returns the boolean literal stored under `key`: `None` where the key
    /// is absent, an error where it holds another literal kind.
    pub fn get_bool(&self, key: &str) -> (r: Result<Option<bool>, AttrError>)
        ensures
            (match self.spec_get(key@) {
                None => r == Ok::<Option<bool>, AttrError>(None),
                Some(Lit::Bool(b)) => r == Ok::<Option<bool>, AttrError>(Some(b)),
                Some(_) => r matches Err(e) && e matches AttrError::ExpectedBoolLiteral(k) && k@
                    == key@,
            }),
    {
        match self.get(key) {
            None => Ok(None),
            Some(Lit::Bool(b)) => Ok(Some(b)),
            Some(_) => Err(AttrError::ExpectedBoolLiteral(key.to_owned())),
        }
    }

    /// Returns the literal stored under `key`, if any.
    fn get(&self, key: &str) -> (r: Option<Lit>)
        ensures
            (match self.spec_get(key@) {
                None => r is None,
                Some(l) => r matches Some(v) && v == l,
            }),
    {
        let key_string = key.to_owned();
        let mut i: usize = 0;
        proof {
            assert(self.0@.skip(0) =~= self.0@);
        }
        while i < self.0.len()
            invariant
                0 <= i <= self.0@.len(),
                key_string@ == key@,
                spec_lookup(self.0@, key@) == spec_lookup(self.0@.skip(i as int), key@),
            decreases self.0@.len() - i,
        {
            proof {
                assert(self.0@.skip(i as int)[0] == self.0@[i as int]);
                assert(self.0@.skip(i as int).skip(1) =~= self.0@.skip(i + 1 as int));
            }
            let eq = self.0[i].0.eq(&key_string);
            if eq {
                return Some(self.0[i].1.content.clone());
            }
            i = i + 1;
        }
        proof {
            assert(self.0@.skip(self.0@.len() as int) =~= Seq::<(String, Attr)>::empty());
        }
        None
    }
}

/// Whether no two pairs share a key.
pub open spec fn spec_pairwise_distinct_keys(pairs: Seq<(String, Lit)>) -> bool {
    forall|a: int, b: int| 0 <= a < b < pairs.len() ==> pairs[a].0@ != pairs[b].0@
}

/// What a record type is lowercased to when it gives no explicit table name.
/// Relies on `str::to_lowercase`: the result depends on the characters alone.
pub uninterp spec fn lower_of(s: Seq<char>) -> Seq<char>;

/// Relies on `str::to_lowercase`: lowercases a record type's name into its
/// default table name.
#[verifier::external_body]
fn lowercase(s: &str) -> (r: String)
    ensures
        r@ == lower_of(s@),
{
    s.to_lowercase()
}

/// How a primitive field is linked to the statement: by a column of the
/// record's table, or by a raw SQL expression standing in the column's place.
#[derive(Debug, PartialEq, Eq)]
pub enum SqlLink {
    Column(String),
    Expression(String),
}

/// How a field is to be rebuilt from cells.
#[derive(Debug, PartialEq, Eq)]
pub enum Complexity {
    /// The field's type is itself a record and needs that record's whole
    /// column span; reconstruction recurses into it.
    Complex { join: Option<JoinClause> },
    /// The field is representable through exactly one column or expression.
    Primitive { link: SqlLink },
}

/// Maps one field to its columns.
#[derive(Debug, PartialEq, Eq)]
pub struct FieldColumn {
    pub field_ident: String,
    pub complexity: Complexity,
}

/// The struct-level declaration: an optional override of the default table
/// name.
#[derive(Debug, PartialEq, Eq)]
pub struct StructAttr {
    pub table: Option<String>,
}

/// The record-descriptor metadata the generator produces: what a conforming
/// type's `required_tables`, `required_joins` and `select_exprs` return. The
/// value consumption itself stays with the type's own `from_row`, which walks
/// the select expressions in this exact order.
#[derive(Debug, PartialEq, Eq)]
pub struct Descriptor {
    pub tables: Vec<String>,
    pub joins: Vec<Join>,
    pub exprs: Vec<String>,
}

/// The mathematical content of a `SqlLink`.
pub ghost enum SpecSqlLink {
    Column(Seq<char>),
    Expression(Seq<char>),
}

/// The mathematical content of a `Complexity`.
pub ghost enum SpecComplexity {
    Complex { join: Option<SpecJoinClause> },
    Primitive { link: SpecSqlLink },
}

/// The mathematical content of a `Descriptor`.
pub ghost struct SpecDescriptor {
    pub tables: Seq<Seq<char>>,
    pub joins: Seq<SpecJoin>,
    pub exprs: Seq<Seq<char>>,
}

/// The mathematical content of one field declaration handed to the
/// generator: the field's complexity and, for a complex field, the nested
/// record's own descriptor.
pub ghost struct SpecFieldDecl {
    pub complexity: SpecComplexity,
    pub nested: Option<SpecDescriptor>,
}

impl View for SqlLink {
    type V = SpecSqlLink;

    open spec fn view(&self) -> SpecSqlLink {
        match self {
            SqlLink::Column(c) => SpecSqlLink::Column(c@),
            SqlLink::Expression(e) => SpecSqlLink::Expression(e@),
        }
    }
}

impl View for Complexity {
    type V = SpecComplexity;

    open spec fn view(&self) -> SpecComplexity {
        match self {
            Complexity::Complex { join } => SpecComplexity::Complex {
                join: match join {
                    Some(j) => Some(j@),
                    None => None,
                },
            },
            Complexity::Primitive { link } => SpecComplexity::Primitive { link: link@ },
        }
    }
}

impl View for Descriptor {
    type V = SpecDescriptor;

    open spec fn view(&self) -> SpecDescriptor {
        SpecDescriptor {
            tables: self.tables@.map_values(|s: String| s@),
            joins: self.joins@.map_values(|j: Join| j@),
            exprs: self.exprs@.map_values(|s: String| s@),
        }
    }
}

/// One field declaration handed to the generator: the field's column mapping
/// and, for a complex field, the nested record's own descriptor.
#[derive(Debug, PartialEq, Eq)]
pub struct FieldDecl {
    pub column: FieldColumn,
    pub nested: Option<Descriptor>,
}

impl View for FieldDecl {
    type V = SpecFieldDecl;

    open spec fn view(&self) -> SpecFieldDecl {
        SpecFieldDecl {
            complexity: self.column.complexity@,
            nested: match &self.nested {
                Some(d) => Some(d@),
                None => None,
            },
        }
    }
}

/// Whether a field declaration is complex.
pub open spec fn spec_is_complex(f: SpecFieldDecl) -> bool {
    f.complexity matches SpecComplexity::Complex { .. }
}

/// Whether a field declaration claims the caller's filter condition for its
/// join.
pub open spec fn spec_claims_condition(f: SpecFieldDecl) -> bool {
    f.complexity matches SpecComplexity::Complex { join: Some(SpecJoinClause::Condition) }
}

/// Whether every complex field carries its nested record's descriptor.
pub open spec fn spec_fields_wf(fields: Seq<SpecFieldDecl>) -> bool {
    forall|i: int| 0 <= i < fields.len() ==> (spec_is_complex(#[trigger] fields[i]) ==> fields[i].nested is Some)
}

/// The tables one field contributes: a complex field brings its nested
/// record's whole table set, a primitive field none of its own.
pub open spec fn spec_field_tables(f: SpecFieldDecl) -> Seq<Seq<char>> {
    if spec_is_complex(f) {
        f.nested->Some_0.tables
    } else {
        Seq::empty()
    }
}

/// The joins one field contributes: a complex field declaring a join clause
/// brings one join on its nested record's primary table, plus that record's
/// own joins; any other field none.
pub open spec fn spec_field_joins(f: SpecFieldDecl) -> Seq<SpecJoin> {
    match f.complexity {
        SpecComplexity::Complex { join: Some(clause) } => seq![
            SpecJoin { table: f.nested->Some_0.tables[0], clause },
        ] + f.nested->Some_0.joins,
        _ => Seq::empty(),
    }
}

/// The select expressions one field contributes: a complex field its nested
/// record's whole expression list, a primitive field its qualified column
/// `table.column` or its raw expression.
pub open spec fn spec_field_exprs(f: SpecFieldDecl, table: Seq<char>) -> Seq<Seq<char>> {
    match f.complexity {
        SpecComplexity::Complex { .. } => f.nested->Some_0.exprs,
        SpecComplexity::Primitive { link: SpecSqlLink::Column(c) } => seq![table + "."@ + c],
        SpecComplexity::Primitive { link: SpecSqlLink::Expression(e) } => seq![e],
    }
}

/// The parts concatenated in order.
pub open spec fn spec_concat_all<T>(parts: Seq<Seq<T>>) -> Seq<T>
    decreases parts.len(),
{
    if parts.len() == 0 {
        Seq::empty()
    } else {
        spec_concat_all(parts.drop_last()) + parts.last()
    }
}

/// How many fields claim the caller's filter condition.
pub open spec fn spec_claim_count(fields: Seq<SpecFieldDecl>) -> int {
    fields.filter(|f: SpecFieldDecl| spec_claims_condition(f)).len() as int
}

/// Whether a complex field declares a join although its nested record
/// declares no table to join on.
pub open spec fn spec_join_without_table(f: SpecFieldDecl) -> bool {
    spec_field_joins(f).len() > 0 && f.nested->Some_0.tables.len() == 0
}

pub open spec fn spec_some_join_without_table(fields: Seq<SpecFieldDecl>) -> bool {
    exists|i: int| 0 <= i < fields.len() && spec_join_without_table(#[trigger] fields[i])
}

/// Whether the key is absent or holds a string literal.
pub open spec fn spec_key_str_ok(a: ParsedAttributes, key: Seq<char>) -> bool {
    match a.spec_get(key) {
        None => true,
        Some(Lit::Str(_)) => true,
        Some(_) => false,
    }
}

/// Whether the key is absent or holds a boolean literal.
pub open spec fn spec_key_bool_ok(a: ParsedAttributes, key: Seq<char>) -> bool {
    match a.spec_get(key) {
        None => true,
        Some(Lit::Bool(_)) => true,
        Some(_) => false,
    }
}

/// The string stored under the key, where there is one.
pub open spec fn spec_str_at(a: ParsedAttributes, key: Seq<char>) -> Option<Seq<char>> {
    match a.spec_get(key) {
        Some(Lit::Str(s)) => Some(s@),
        _ => None,
    }
}

/// The boolean stored under the key, where there is one.
pub open spec fn spec_bool_at(a: ParsedAttributes, key: Seq<char>) -> Option<bool> {
    match a.spec_get(key) {
        Some(Lit::Bool(b)) => Some(b),
        _ => None,
    }
}

/// Whether a field declaration is accepted: every key holds the literal kind
/// it requires, `joined_on` does not meet `condition_in_join`, and `column`
/// does not meet `expression`.
pub open spec fn spec_field_decl_ok(a: ParsedAttributes) -> bool {
    &&& spec_key_str_ok(a, "column"@)
    &&& spec_key_str_ok(a, "expression"@)
    &&& spec_key_bool_ok(a, "complex"@)
    &&& spec_key_str_ok(a, "joined_on"@)
    &&& spec_key_bool_ok(a, "condition_in_join"@)
    &&& !(spec_str_at(a, "joined_on"@) is Some && spec_bool_at(a, "condition_in_join"@) == Some(
        true,
    ))
    &&& !(spec_str_at(a, "column"@) is Some && spec_str_at(a, "expression"@) is Some)
}

/// The complexity an accepted field declaration denotes.
pub open spec fn spec_complexity_of(a: ParsedAttributes, field_ident: Seq<char>) -> SpecComplexity {
    if spec_bool_at(a, "complex"@) == Some(true) {
        SpecComplexity::Complex {
            join: match spec_str_at(a, "joined_on"@) {
                Some(clause) => Some(SpecJoinClause::On(clause)),
                None => if spec_bool_at(a, "condition_in_join"@) == Some(true) {
                    Some(SpecJoinClause::Condition)
                } else {
                    None
                },
            },
        }
    } else {
        SpecComplexity::Primitive {
            link: match spec_str_at(a, "expression"@) {
                Some(e) => SpecSqlLink::Expression(e),
                None => match spec_str_at(a, "column"@) {
                    Some(c) => SpecSqlLink::Column(c),
                    None => SpecSqlLink::Column(field_ident),
                },
            },
        }
    }
}

impl FieldColumn {
    /// Builds one field's column mapping from its parsed declaration,
    /// mirroring the per-field rules: `complex = true` makes the field
    /// complex, with `joined_on` or `condition_in_join` as its join clause;
    /// anything else is primitive, linked to its declared expression, its
    /// declared column, or by default the field's own name.
    pub fn from_decl(field_ident: &str, attrs: &ParsedAttributes) -> (r: Result<
        FieldColumn,
        AttrError,
    >)
        ensures
            r is Ok <==> spec_field_decl_ok(*attrs),
            r matches Ok(f) ==> f.field_ident@ == field_ident@ && f.complexity@
                == spec_complexity_of(*attrs, field_ident@),
    {
        let column = match attrs.get_str("column") {
            Ok(v) => v,
            Err(e) => {
                return Err(e);
            },
        };
        let expression = match attrs.get_str("expression") {
            Ok(v) => v,
            Err(e) => {
                return Err(e);
            },
        };
        let complex = match attrs.get_bool("complex") {
            Ok(v) => v,
            Err(e) => {
                return Err(e);
            },
        };
        let joined_on = match attrs.get_str("joined_on") {
            Ok(v) => v,
            Err(e) => {
                return Err(e);
            },
        };
        let condition_in_join = match attrs.get_bool("condition_in_join") {
            Ok(v) => v,
            Err(e) => {
                return Err(e);
            },
        };
        if joined_on.is_some() && condition_in_join == Some(true) {
            return Err(AttrError::ConflictingJoinOptions);
        }
        if column.is_some() && expression.is_some() {
            return Err(AttrError::ConflictingColumnOptions);
        }
        let complexity = if complex == Some(true) {
            Complexity::Complex {
                join: match joined_on {
                    Some(clause) => Some(JoinClause::On(clause)),
                    None => if condition_in_join == Some(true) {
                        Some(JoinClause::Condition)
                    } else {
                        None
                    },
                },
            }
        } else {
            Complexity::Primitive {
                link: match expression {
                    Some(e) => SqlLink::Expression(e),
                    None => match column {
                        Some(c) => SqlLink::Column(c),
                        None => SqlLink::Column(field_ident.to_owned()),
                    },
                },
            }
        };
        Ok(FieldColumn { field_ident: field_ident.to_owned(), complexity })
    }
}

impl StructAttr {
    /// Builds the struct-level declaration: an optional table-name override.
    pub fn try_from(attrs: &ParsedAttributes) -> (r: Result<StructAttr, AttrError>)
        ensures
            r is Ok <==> spec_key_str_ok(*attrs, "table"@),
            r matches Ok(s) ==> (match (s.table, spec_str_at(*attrs, "table"@)) {
                (Some(t), Some(spec_t)) => t@ == spec_t,
                (None, None) => true,
                _ => false,
            }),
    {
        match attrs.get_str("table") {
            Ok(table) => Ok(StructAttr { table }),
            Err(e) => Err(e),
        }
    }
}

/// The table a record is stored under: its declared override, or its type
/// name lowercased.
pub open spec fn spec_table_name(ident: Seq<char>, attr: StructAttr) -> Seq<char> {
    match attr.table {
        Some(t) => t@,
        None => lower_of(ident),
    }
}

/// Produces the record-descriptor metadata for one record type from its
/// declarative field list: its own table followed by every complex field's
/// nested tables; one join per complex field that declares a join clause,
/// followed by that field's nested joins; and per field its qualified column,
/// its raw expression, or its nested record's whole expression list, in field
/// order. Rejected at definition time: more than one field claiming the
/// caller's filter condition, and a join on a nested record that declares no
/// table.
pub fn generate_impl(ident: &str, struct_attr: &StructAttr, fields: &Vec<FieldDecl>) -> (r: Result<
    Descriptor,
    AttrError,
>)
    requires
        spec_fields_wf(fields@.map_values(|f: FieldDecl| f@)),
    ensures
        ({
            let fv = fields@.map_values(|f: FieldDecl| f@);
            let table = spec_table_name(ident@, *struct_attr);
            &&& (r is Ok <==> spec_claim_count(fv) <= 1 && !spec_some_join_without_table(fv))
            &&& (r matches Err(e) && e matches AttrError::MultipleConditionClaims <==> spec_claim_count(fv) >= 2)
            &&& (r matches Ok(d) ==> {
                &&& d@.tables == seq![table] + spec_concat_all(fv.map_values(|f: SpecFieldDecl| spec_field_tables(f)))
                &&& d@.joins == spec_concat_all(fv.map_values(|f: SpecFieldDecl| spec_field_joins(f)))
                &&& d@.exprs == spec_concat_all(fv.map_values(|f: SpecFieldDecl| spec_field_exprs(f, table)))
            })
        }),
{
    let ghost fv = fields@.map_values(|f: FieldDecl| f@);
    let claims = count_condition_claims(fields);
    if claims >= 2 {
        return Err(AttrError::MultipleConditionClaims);
    }
    let table: String = match &struct_attr.table {
        Some(t) => t.clone(),
        None => lowercase(ident),
    };
    let ghost tbl = spec_table_name(ident@, *struct_attr);
    let mut tables: Vec<String> = vec![table.clone()];
    let mut joins: Vec<Join> = Vec::new();
    let mut exprs: Vec<String> = Vec::new();
    proof {
        assert(tables@.map_values(|s: String| s@) =~= seq![tbl]);
        assert(fv.take(0).map_values(|f: SpecFieldDecl| spec_field_tables(f)) =~= Seq::<
            Seq<Seq<char>>,
        >::empty());
        assert(fv.take(0).map_values(|f: SpecFieldDecl| spec_field_joins(f)) =~= Seq::<
            Seq<SpecJoin>,
        >::empty());
        assert(fv.take(0).map_values(|f: SpecFieldDecl| spec_field_exprs(f, tbl)) =~= Seq::<
            Seq<Seq<char>>,
        >::empty());
    }
    let mut i: usize = 0;
    while i < fields.len()
        invariant
            0 <= i <= fields@.len(),
            fv == fields@.map_values(|f: FieldDecl| f@),
            spec_fields_wf(fv),
            spec_claim_count(fv) <= 1,
            table@ == tbl,
            tbl == spec_table_name(ident@, *struct_attr),
            forall|j: int| 0 <= j < i ==> !spec_join_without_table(#[trigger] fv[j]),
            tables@.map_values(|s: String| s@) == seq![tbl] + spec_concat_all(
                fv.take(i as int).map_values(|f: SpecFieldDecl| spec_field_tables(f)),
            ),
            joins@.map_values(|j: Join| j@) == spec_concat_all(
                fv.take(i as int).map_values(|f: SpecFieldDecl| spec_field_joins(f)),
            ),
            exprs@.map_values(|s: String| s@) == spec_concat_all(
                fv.take(i as int).map_values(|f: SpecFieldDecl| spec_field_exprs(f, tbl)),
            ),
        decreases fields@.len() - i,
    {
        proof {
            assert(fv[i as int] == fields@[i as int]@);
            let g = |f: SpecFieldDecl| spec_field_tables(f);
            assert(fv.take(i + 1 as int).map_values(g).drop_last() =~= fv.take(i as int).map_values(
                g,
            ));
            assert(fv.take(i + 1 as int).map_values(g).last() == g(fv[i as int]));
            let h = |f: SpecFieldDecl| spec_field_joins(f);
            assert(fv.take(i + 1 as int).map_values(h).drop_last() =~= fv.take(i as int).map_values(
                h,
            ));
            assert(fv.take(i + 1 as int).map_values(h).last() == h(fv[i as int]));
            let k = |f: SpecFieldDecl| spec_field_exprs(f, tbl);
            assert(fv.take(i + 1 as int).map_values(k).drop_last() =~= fv.take(i as int).map_values(
                k,
            ));
            assert(fv.take(i + 1 as int).map_values(k).last() == k(fv[i as int]));
        }
        let field = &fields[i];
        match &field.column.complexity {
            Complexity::Complex { join } => {
                let nested = match &field.nested {
                    Some(n) => n,
                    None => {
                        proof {
                            assert(fv[i as int] == fields@[i as int]@);
                            assert(fv[i as int].complexity matches SpecComplexity::Complex { .. });
                            assert(spec_is_complex(fv[i as int]));
                            assert(fv[i as int].nested is Some);
                            assert(false);
                        }
                        return Err(AttrError::NestedWithoutTable(field.column.field_ident.clone()));
                    },
                };
                match join {
                    Some(clause) => {
                        if nested.tables.len() == 0 {
                            proof {
                                assert(fv[i as int] == fields@[i as int]@);
                                assert(nested.tables@.map_values(|s: String| s@).len()
                                    == nested.tables@.len());
                                assert(fv[i as int].nested->Some_0.tables.len() == 0);
                                assert(spec_field_joins(fv[i as int]).len() > 0);
                                assert(spec_join_without_table(fv[i as int]));
                                assert(spec_some_join_without_table(fv));
                            }
                            let err = AttrError::NestedWithoutTable(
                                field.column.field_ident.clone(),
                            );
                            proof {
                                assert(!(err matches AttrError::MultipleConditionClaims));
                                assert(spec_claim_count(fv) <= 1);
                            }
                            return Err(err);
                        }
                        let ghost before = joins@.map_values(|j: Join| j@);
                        joins.push(
                            Join { table: nested.tables[0].clone(), clause: clause.clone() },
                        );
                        proof {
                            assert(joins@.drop_last() =~= joins@.subrange(0, joins@.len() - 1));
                            assert(joins@.map_values(|j: Join| j@) =~= before.push(
                                joins@.last()@,
                            ));
                        }
                        append_joins(&mut joins, &nested.joins);
                    },
                    None => {},
                }
                let ghost before_t = tables@.map_values(|s: String| s@);
                append_strings(&mut tables, &nested.tables);
                let ghost before_e = exprs@.map_values(|s: String| s@);
                append_strings(&mut exprs, &nested.exprs);
            },
            Complexity::Primitive { link } => {
                let mut e = String::new();
                match link {
                    SqlLink::Column(c) => {
                        e.append(table.as_str());
                        e.append(".");
                        e.append(c.as_str());
                    },
                    SqlLink::Expression(raw) => {
                        e.append(raw.as_str());
                    },
                }
                let ghost before = exprs@.map_values(|s: String| s@);
                exprs.push(e);
                proof {
                    assert(exprs@.drop_last() =~= exprs@.subrange(0, exprs@.len() - 1));
                    assert(exprs@.map_values(|s: String| s@) =~= before.push(exprs@.last()@));
                }
            },
        }
        proof {
            let g = |f: SpecFieldDecl| spec_field_tables(f);
            let h = |f: SpecFieldDecl| spec_field_joins(f);
            let k = |f: SpecFieldDecl| spec_field_exprs(f, tbl);
            assert(tables@.map_values(|s: String| s@) =~= seq![tbl] + spec_concat_all(
                fv.take(i + 1 as int).map_values(g),
            ));
            assert(joins@.map_values(|j: Join| j@) =~= spec_concat_all(
                fv.take(i + 1 as int).map_values(h),
            ));
            assert(exprs@.map_values(|s: String| s@) =~= spec_concat_all(
                fv.take(i + 1 as int).map_values(k),
            ));
        }
        i = i + 1;
    }
    proof {
        assert(fv.take(fields@.len() as int) =~= fv);
    }
    Ok(Descriptor { tables, joins, exprs })
}

/// Appends clones of the source strings, concatenating the views.
fn append_strings(acc: &mut Vec<String>, src: &Vec<String>)
    ensures
        final(acc)@.map_values(|s: String| s@) == old(acc)@.map_values(|s: String| s@)
            + src@.map_values(|s: String| s@),
{
    let ghost before = acc@.map_values(|s: String| s@);
    let ghost sv = src@.map_values(|s: String| s@);
    let mut i: usize = 0;
    while i < src.len()
        invariant
            0 <= i <= src@.len(),
            sv == src@.map_values(|s: String| s@),
            acc@.map_values(|s: String| s@) == before + sv.take(i as int),
        decreases src@.len() - i,
    {
        let ghost mid = acc@.map_values(|s: String| s@);
        acc.push(src[i].clone());
        proof {
            assert(acc@.drop_last() =~= acc@.subrange(0, acc@.len() - 1));
            assert(acc@.map_values(|s: String| s@) =~= mid.push(sv[i as int]));
            assert(mid.push(sv[i as int]) =~= before + sv.take(i + 1 as int));
        }
        i = i + 1;
    }
    proof {
        assert(sv.take(src@.len() as int) =~= sv);
        assert(acc@.map_values(|s: String| s@) =~= before + sv);
    }
}

/// Appends clones of the source joins, concatenating the views.
fn append_joins(acc: &mut Vec<Join>, src: &Vec<Join>)
    ensures
        final(acc)@.map_values(|j: Join| j@) == old(acc)@.map_values(|j: Join| j@)
            + src@.map_values(|j: Join| j@),
{
    let ghost before = acc@.map_values(|j: Join| j@);
    let ghost sv = src@.map_values(|j: Join| j@);
    let mut i: usize = 0;
    while i < src.len()
        invariant
            0 <= i <= src@.len(),
            sv == src@.map_values(|j: Join| j@),
            acc@.map_values(|j: Join| j@) == before + sv.take(i as int),
        decreases src@.len() - i,
    {
        let ghost mid = acc@.map_values(|j: Join| j@);
        acc.push(src[i].clone());
        proof {
            assert(acc@.drop_last() =~= acc@.subrange(0, acc@.len() - 1));
            assert(acc@.map_values(|j: Join| j@) =~= mid.push(sv[i as int]));
            assert(mid.push(sv[i as int]) =~= before + sv.take(i + 1 as int));
        }
        i = i + 1;
    }
    proof {
        assert(sv.take(src@.len() as int) =~= sv);
        assert(acc@.map_values(|j: Join| j@) =~= before + sv);
    }
}

/// Counts the fields that claim the caller's filter condition.
fn count_condition_claims(fields: &Vec<FieldDecl>) -> (r: usize)
    ensures
        r == spec_claim_count(fields@.map_values(|f: FieldDecl| f@)),
{
    let ghost fv = fields@.map_values(|f: FieldDecl| f@);
    let ghost pred = |f: SpecFieldDecl| spec_claims_condition(f);
    let mut count: usize = 0;
    let mut i: usize = 0;
    proof {
        reveal(Seq::filter);
        assert(fv.take(0).filter(pred) =~= Seq::<SpecFieldDecl>::empty());
    }
    while i < fields.len()
        invariant
            0 <= i <= fields@.len(),
            fv == fields@.map_values(|f: FieldDecl| f@),
            pred == (|f: SpecFieldDecl| spec_claims_condition(f)),
            count == fv.take(i as int).filter(pred).len(),
            count <= i,
        decreases fields@.len() - i,
    {
        proof {
            reveal(Seq::filter);
            assert(fv.take(i + 1 as int).drop_last() =~= fv.take(i as int));
            assert(fv.take(i + 1 as int).last() == fv[i as int]);
            assert(fv[i as int] == fields@[i as int]@);
        }
        match &fields[i].column.complexity {
            Complexity::Complex { join: Some(JoinClause::Condition) } => {
                count = count + 1;
            },
            _ => {},
        }
        i = i + 1;
    }
    proof {
        assert(fv.take(fields@.len() as int) =~= fv);
    }
    count
}

} // verus!
