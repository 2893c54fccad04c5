//! The structural synthesis facility: given the declared shape of a composite
//! type, it emits source text implementing the duplication contract for that
//! type — a constructor expression that duplicates every field in declaration
//! order and short-circuits on the first failure.

use vstd::prelude::*;

verus! {

/// The fields of a record or of one union variant.
pub enum FieldList {
    /// Named fields, identifiers in declaration order.
    Named(Vec<String>),
    /// Positional fields, addressed by index; the value is their count.
    Unnamed(usize),
    /// No fields at all.
    Unit,
}

/// One variant of a tagged union: its tag and its fields.
pub struct Variant {
    pub name: String,
    pub fields: FieldList,
}

/// The shape of a composite type's body.
pub enum Shape {
    /// A single-variant record.
    Struct(FieldList),
    /// A tagged union of variants, each with its own field list.
    Enum(Vec<Variant>),
    /// Raw overlapping storage: outside the supported set, rejected.
    Union,
}

/// The declared head of a composite type, with the generics rendered as they
/// stand in the declaration so that they are threaded unchanged into the
/// emitted implementation.
pub struct TypeDecl {
    /// The type's identifier.
    pub name: String,
    /// The generic parameter list with its bounds, `<` to `>`, or empty.
    pub generics: String,
    /// The generic argument list as it is used on the type, `<` to `>`, or
    /// empty.
    pub type_args: String,
    /// The `where` clause, or empty.
    pub where_clause: String,
    /// The shape of the type's body.
    pub shape: Shape,
}

/// The diagnostic of the synthesis facility: a build-time failure, never a
/// runtime value.
#[derive(Clone, Copy, Debug, PartialEq, Eq, Structural)]
pub enum ShapeError {
    /// Raw overlapping-storage unions have no structural duplication.
    UnsupportedUnion,
}

/// The decimal digit `d`, for `d < 10`, as text.
pub open spec fn dec_digit(d: nat) -> Seq<char> {
    if d == 0 {
        "0"@
    } else if d == 1 {
        "1"@
    } else if d == 2 {
        "2"@
    } else if d == 3 {
        "3"@
    } else if d == 4 {
        "4"@
    } else if d == 5 {
        "5"@
    } else if d == 6 {
        "6"@
    } else if d == 7 {
        "7"@
    } else if d == 8 {
        "8"@
    } else {
        "9"@
    }
}

/// The decimal rendering of `n`, most significant digit first.
pub open spec fn dec_text(n: nat) -> Seq<char>
    decreases n,
{
    if n < 10 {
        dec_digit(n)
    } else {
        dec_text(n / 10) + dec_digit(n % 10)
    }
}

/// The duplication of one named field of a record: `f` becomes
/// `f: ::fallacy_clone::TryClone::try_clone(&self.f)?, `.
pub open spec fn named_field_text(f: Seq<char>) -> Seq<char> {
    f + ": ::fallacy_clone::TryClone::try_clone(&self."@ + f + ")?, "@
}

/// The duplications of a record's named fields, in declaration order.
pub open spec fn named_fields_text(fs: Seq<Seq<char>>) -> Seq<char>
    decreases fs.len(),
{
    if fs.len() == 0 {
        Seq::empty()
    } else {
        named_fields_text(fs.drop_last()) + named_field_text(fs.last())
    }
}

/// The duplication of the positional field at index `i`:
/// `::fallacy_clone::TryClone::try_clone(&self.i)?, `.
pub open spec fn unnamed_field_text(i: nat) -> Seq<char> {
    "::fallacy_clone::TryClone::try_clone(&self."@ + dec_text(i) + ")?, "@
}

/// The duplications of a record's `n` positional fields, in index order.
pub open spec fn unnamed_fields_text(n: nat) -> Seq<char>
    decreases n,
{
    if n == 0 {
        Seq::empty()
    } else {
        unnamed_fields_text((n - 1) as nat) + unnamed_field_text((n - 1) as nat)
    }
}

/// The constructor expression duplicating a record of the given field list.
pub open spec fn struct_body_text(fl: FieldList) -> Seq<char> {
    match fl {
        FieldList::Named(fs) => "Self { "@ + named_fields_text(fs.deep_view()) + "}"@,
        FieldList::Unnamed(n) => "Self("@ + unnamed_fields_text(n as nat) + ")"@,
        FieldList::Unit => "Self"@,
    }
}

/// The path of a variant: `Enum::Variant`.
pub open spec fn variant_path_text(ename: Seq<char>, vname: Seq<char>) -> Seq<char> {
    ename + "::"@ + vname
}

/// One binding of a named variant field in a match pattern: `f, `.
pub open spec fn bind_name_text(f: Seq<char>) -> Seq<char> {
    f + ", "@
}

/// The bindings of a named variant's fields in a match pattern.
pub open spec fn bind_names_text(fs: Seq<Seq<char>>) -> Seq<char>
    decreases fs.len(),
{
    if fs.len() == 0 {
        Seq::empty()
    } else {
        bind_names_text(fs.drop_last()) + bind_name_text(fs.last())
    }
}

/// The duplication of one named variant field from its binding:
/// `f: ::fallacy_clone::TryClone::try_clone(f)?, `.
pub open spec fn named_arm_field_text(f: Seq<char>) -> Seq<char> {
    f + ": ::fallacy_clone::TryClone::try_clone("@ + f + ")?, "@
}

/// The duplications of a named variant's fields, in declaration order.
pub open spec fn named_arm_fields_text(fs: Seq<Seq<char>>) -> Seq<char>
    decreases fs.len(),
{
    if fs.len() == 0 {
        Seq::empty()
    } else {
        named_arm_fields_text(fs.drop_last()) + named_arm_field_text(fs.last())
    }
}

/// One binding of a positional variant field in a match pattern: `fi, `.
pub open spec fn bind_index_text(i: nat) -> Seq<char> {
    "f"@ + dec_text(i) + ", "@
}

/// The bindings of a positional variant's `n` fields in a match pattern.
pub open spec fn bind_indexes_text(n: nat) -> Seq<char>
    decreases n,
{
    if n == 0 {
        Seq::empty()
    } else {
        bind_indexes_text((n - 1) as nat) + bind_index_text((n - 1) as nat)
    }
}

/// The duplication of one positional variant field from its binding:
/// `::fallacy_clone::TryClone::try_clone(fi)?, `.
pub open spec fn unnamed_arm_field_text(i: nat) -> Seq<char> {
    "::fallacy_clone::TryClone::try_clone(f"@ + dec_text(i) + ")?, "@
}

/// The duplications of a positional variant's `n` fields, in index order.
pub open spec fn unnamed_arm_fields_text(n: nat) -> Seq<char>
    decreases n,
{
    if n == 0 {
        Seq::empty()
    } else {
        unnamed_arm_fields_text((n - 1) as nat) + unnamed_arm_field_text((n - 1) as nat)
    }
}

/// The match arm that duplicates one variant: it rebuilds the same tag, with
/// each field duplicated in declaration order.
pub open spec fn arm_text(ename: Seq<char>, v: Variant) -> Seq<char> {
    match v.fields {
        FieldList::Named(fs) => variant_path_text(ename, v.name@) + " { "@ + bind_names_text(
            fs.deep_view(),
        ) + "} => "@ + variant_path_text(ename, v.name@) + " { "@ + named_arm_fields_text(
            fs.deep_view(),
        ) + "}, "@,
        FieldList::Unnamed(n) => variant_path_text(ename, v.name@) + "("@ + bind_indexes_text(
            n as nat,
        ) + ") => "@ + variant_path_text(ename, v.name@) + "("@ + unnamed_arm_fields_text(n as nat)
            + "), "@,
        FieldList::Unit => variant_path_text(ename, v.name@) + " => "@ + variant_path_text(
            ename,
            v.name@,
        ) + ", "@,
    }
}

/// The match arms of all variants, in declaration order.
pub open spec fn arms_text(ename: Seq<char>, vs: Seq<Variant>) -> Seq<char>
    decreases vs.len(),
{
    if vs.len() == 0 {
        Seq::empty()
    } else {
        arms_text(ename, vs.drop_last()) + arm_text(ename, vs.last())
    }
}

/// The expression whose value is the duplicate: a constructor for a record, a
/// match over the variants for a tagged union.
pub open spec fn body_text(decl: TypeDecl) -> Seq<char> {
    match decl.shape {
        Shape::Struct(fl) => struct_body_text(fl),
        Shape::Enum(vs) => "match self { "@ + arms_text(decl.name@, vs.view()) + "}"@,
        Shape::Union => Seq::empty(),
    }
}

/// The `where` clause as emitted: prefixed by a space, or nothing.
pub open spec fn where_text(w: Seq<char>) -> Seq<char> {
    if w.len() == 0 {
        Seq::empty()
    } else {
        " "@ + w
    }
}

/// The whole emitted implementation of the duplication contract for a
/// supported shape.
pub open spec fn impl_text(decl: TypeDecl) -> Seq<char> {
    "impl"@ + decl.generics@ + " ::fallacy_clone::TryClone for "@ + decl.name@ + decl.type_args@
        + where_text(decl.where_clause@)
        + " {\n    fn try_clone(&self) -> ::core::result::Result<Self, ::fallacy_clone::AllocError> {\n        Ok("@
        + body_text(decl) + ")\n    }\n}\n"@
}

/// The decimal digit `d < 10` as a string slice.
fn digit_code(d: usize) -> (r: &'static str)
    requires
        d < 10,
    ensures
        r@ == dec_digit(d as nat),
{
    if d == 0 {
        "0"
    } else if d == 1 {
        "1"
    } else if d == 2 {
        "2"
    } else if d == 3 {
        "3"
    } else if d == 4 {
        "4"
    } else if d == 5 {
        "5"
    } else if d == 6 {
        "6"
    } else if d == 7 {
        "7"
    } else if d == 8 {
        "8"
    } else {
        "9"
    }
}

/// Renders `n` in decimal, most significant digit first.
fn dec_code(n: usize) -> (r: String)
    ensures
        r@ == dec_text(n as nat),
    decreases n,
{
    if n < 10 {
        digit_code(n).to_owned()
    } else {
        let mut s = dec_code(n / 10);
        s.append(digit_code(n % 10));
        s
    }
}

/// Emits the duplications of a record's named fields.
fn named_fields_code(fs: &Vec<String>) -> (r: String)
    ensures
        r@ == named_fields_text(fs.deep_view()),
{
    let mut out = String::new();
    assert(out@ =~= named_fields_text(fs.deep_view().take(0)));
    for i in 0..fs.len()
        invariant
            out@ == named_fields_text(fs.deep_view().take(i as int)),
    {
        out.append(fs[i].as_str());
        out.append(": ::fallacy_clone::TryClone::try_clone(&self.");
        out.append(fs[i].as_str());
        out.append(")?, ");
        proof {
            let dv = fs.deep_view();
            assert(dv.take(i + 1).drop_last() =~= dv.take(i as int));
            assert(dv.take(i + 1).last() == dv[i as int]);
            assert(out@ =~= named_fields_text(dv.take(i + 1)));
        }
    }
    assert(fs.deep_view().take(fs.len() as int) =~= fs.deep_view());
    out
}

/// Emits the duplications of a record's `n` positional fields.
fn unnamed_fields_code(n: usize) -> (r: String)
    ensures
        r@ == unnamed_fields_text(n as nat),
{
    let mut out = String::new();
    assert(out@ =~= unnamed_fields_text(0));
    for i in 0..n
        invariant
            out@ == unnamed_fields_text(i as nat),
    {
        out.append("::fallacy_clone::TryClone::try_clone(&self.");
        out.append(dec_code(i).as_str());
        out.append(")?, ");
        assert(out@ =~= unnamed_fields_text((i + 1) as nat));
    }
    out
}

/// Emits the constructor expression duplicating a record.
fn struct_body_code(fl: &FieldList) -> (r: String)
    ensures
        r@ == struct_body_text(*fl),
{
    match fl {
        FieldList::Named(fs) => {
            let mut out = String::new();
            out.append("Self { ");
            out.append(named_fields_code(fs).as_str());
            out.append("}");
            assert(out@ =~= struct_body_text(*fl));
            out
        },
        FieldList::Unnamed(n) => {
            let mut out = String::new();
            out.append("Self(");
            out.append(unnamed_fields_code(*n).as_str());
            out.append(")");
            assert(out@ =~= struct_body_text(*fl));
            out
        },
        FieldList::Unit => {
            let out = "Self".to_owned();
            assert(out@ =~= struct_body_text(*fl));
            out
        },
    }
}

/// Emits the bindings of a named variant's fields.
fn bind_names_code(fs: &Vec<String>) -> (r: String)
    ensures
        r@ == bind_names_text(fs.deep_view()),
{
    let mut out = String::new();
    assert(out@ =~= bind_names_text(fs.deep_view().take(0)));
    for i in 0..fs.len()
        invariant
            out@ == bind_names_text(fs.deep_view().take(i as int)),
    {
        out.append(fs[i].as_str());
        out.append(", ");
        proof {
            let dv = fs.deep_view();
            assert(dv.take(i + 1).drop_last() =~= dv.take(i as int));
            assert(dv.take(i + 1).last() == dv[i as int]);
            assert(out@ =~= bind_names_text(dv.take(i + 1)));
        }
    }
    assert(fs.deep_view().take(fs.len() as int) =~= fs.deep_view());
    out
}

/// Emits the duplications of a named variant's fields from their bindings.
fn named_arm_fields_code(fs: &Vec<String>) -> (r: String)
    ensures
        r@ == named_arm_fields_text(fs.deep_view()),
{
    let mut out = String::new();
    assert(out@ =~= named_arm_fields_text(fs.deep_view().take(0)));
    for i in 0..fs.len()
        invariant
            out@ == named_arm_fields_text(fs.deep_view().take(i as int)),
    {
        out.append(fs[i].as_str());
        out.append(": ::fallacy_clone::TryClone::try_clone(");
        out.append(fs[i].as_str());
        out.append(")?, ");
        proof {
            let dv = fs.deep_view();
            assert(dv.take(i + 1).drop_last() =~= dv.take(i as int));
            assert(dv.take(i + 1).last() == dv[i as int]);
            assert(out@ =~= named_arm_fields_text(dv.take(i + 1)));
        }
    }
    assert(fs.deep_view().take(fs.len() as int) =~= fs.deep_view());
    out
}

/// Emits the bindings of a positional variant's `n` fields.
fn bind_indexes_code(n: usize) -> (r: String)
    ensures
        r@ == bind_indexes_text(n as nat),
{
    let mut out = String::new();
    assert(out@ =~= bind_indexes_text(0));
    for i in 0..n
        invariant
            out@ == bind_indexes_text(i as nat),
    {
        out.append("f");
        out.append(dec_code(i).as_str());
        out.append(", ");
        assert(out@ =~= bind_indexes_text((i + 1) as nat));
    }
    out
}

/// Emits the duplications of a positional variant's fields from their
/// bindings.
fn unnamed_arm_fields_code(n: usize) -> (r: String)
    ensures
        r@ == unnamed_arm_fields_text(n as nat),
{
    let mut out = String::new();
    assert(out@ =~= unnamed_arm_fields_text(0));
    for i in 0..n
        invariant
            out@ == unnamed_arm_fields_text(i as nat),
    {
        out.append("::fallacy_clone::TryClone::try_clone(f");
        out.append(dec_code(i).as_str());
        out.append(")?, ");
        assert(out@ =~= unnamed_arm_fields_text((i + 1) as nat));
    }
    out
}

/// Emits the match arm duplicating one variant.
fn arm_code(ename: &str, v: &Variant) -> (r: String)
    ensures
        r@ == arm_text(ename@, *v),
{
    let mut out = String::new();
    match &v.fields {
        FieldList::Named(fs) => {
            out.append(ename);
            out.append("::");
            out.append(v.name.as_str());
            out.append(" { ");
            out.append(bind_names_code(fs).as_str());
            out.append("} => ");
            out.append(ename);
            out.append("::");
            out.append(v.name.as_str());
            out.append(" { ");
            out.append(named_arm_fields_code(fs).as_str());
            out.append("}, ");
        },
        FieldList::Unnamed(n) => {
            out.append(ename);
            out.append("::");
            out.append(v.name.as_str());
            out.append("(");
            out.append(bind_indexes_code(*n).as_str());
            out.append(") => ");
            out.append(ename);
            out.append("::");
            out.append(v.name.as_str());
            out.append("(");
            out.append(unnamed_arm_fields_code(*n).as_str());
            out.append("), ");
        },
        FieldList::Unit => {
            out.append(ename);
            out.append("::");
            out.append(v.name.as_str());
            out.append(" => ");
            out.append(ename);
            out.append("::");
            out.append(v.name.as_str());
            out.append(", ");
        },
    }
    assert(out@ =~= arm_text(ename@, *v));
    out
}

/// Emits the match arms of all variants, in declaration order.
fn arms_code(ename: &str, vs: &Vec<Variant>) -> (r: String)
    ensures
        r@ == arms_text(ename@, vs@),
{
    let mut out = String::new();
    assert(out@ =~= arms_text(ename@, vs@.take(0)));
    for i in 0..vs.len()
        invariant
            out@ == arms_text(ename@, vs@.take(i as int)),
    {
        out.append(arm_code(ename, &vs[i]).as_str());
        proof {
            assert(vs@.take(i + 1).drop_last() =~= vs@.take(i as int));
            assert(vs@.take(i + 1).last() == vs@[i as int]);
            assert(out@ =~= arms_text(ename@, vs@.take(i + 1)));
        }
    }
    assert(vs@.take(vs.len() as int) =~= vs@);
    out
}

/// Emits an implementation of the duplication contract for the declared
/// composite type: every field is duplicated through its own implementation,
/// in declaration order, and the first failure short-circuits; a tagged union
/// is duplicated to the very variant it holds. The declared generics are
/// threaded unchanged into the emitted implementation. A raw
/// overlapping-storage union is rejected with a diagnostic.
pub fn impl_try_clone(decl: &TypeDecl) -> (r: Result<String, ShapeError>)
    ensures
        r matches Ok(code) ==> code@ == impl_text(*decl),
        r is Err <==> decl.shape is Union,
        r matches Err(e) ==> e == ShapeError::UnsupportedUnion,
{
    if let Shape::Union = &decl.shape {
        return Err(ShapeError::UnsupportedUnion);
    }
    let mut out = String::new();
    out.append("impl");
    out.append(decl.generics.as_str());
    out.append(" ::fallacy_clone::TryClone for ");
    out.append(decl.name.as_str());
    out.append(decl.type_args.as_str());
    if !decl.where_clause.as_str().is_empty() {
        out.append(" ");
        out.append(decl.where_clause.as_str());
    }
    out.append(
        " {\n    fn try_clone(&self) -> ::core::result::Result<Self, ::fallacy_clone::AllocError> {\n        Ok(",
    );
    match &decl.shape {
        Shape::Struct(fl) => {
            out.append(struct_body_code(fl).as_str());
        },
        Shape::Enum(vs) => {
            out.append("match self { ");
            out.append(arms_code(decl.name.as_str(), vs).as_str());
            out.append("}");
        },
        Shape::Union => {
            return Err(ShapeError::UnsupportedUnion);
        },
    }
    out.append(")\n    }\n}\n");
    assert(out@ =~= impl_text(*decl));
    Ok(out)
}

} // verus!
