//! The Builder Synthesizer: given the record's name and the normalized
//! field sequence, emits the generated source text — the builder type
//! declaration, the record-side factory method, one setter per field, and
//! the terminal `build` method. Every fragment is pinned down, character
//! for character, by a spec function.

use vstd::prelude::*;
use vstd::string::StringExecFns;

use crate::reader::normalize;
use crate::reader::shape_supported;
use crate::reader::spec_normalize;
use crate::record::DeriveError;
use crate::record::FieldModel;
use crate::record::NormalizedField;
use crate::record::RecordDescription;

verus! {

/// One member line of the builder type: the field's type under an optional
/// wrapper, so that "not yet supplied" stays distinct from every value.
pub open spec fn spec_declaration(name: Seq<char>, ty: Seq<char>) -> Seq<char> {
    "    "@ + name + ": Option<"@ + ty + ">,\n"@
}

/// One member initializer of the factory method: the field absent.
pub open spec fn spec_default(name: Seq<char>) -> Seq<char> {
    "            "@ + name + ": None,\n"@
}

/// One setter method: named after the field, stores its argument as
/// present, and returns the builder for chained calls.
pub open spec fn spec_setter(name: Seq<char>, ty: Seq<char>) -> Seq<char> {
    "    fn "@ + name + "(&mut self, "@ + name + ": "@ + ty + ") -> &mut Self {\n        self."@
        + name + " = Some("@ + name + ");\n        self\n    }\n"@
}

/// One member initializer of the `build` method: takes the stored value,
/// or fails with the message naming the field that was never set.
pub open spec fn spec_initialisation(name: Seq<char>) -> Seq<char> {
    "            "@ + name + ": self."@ + name
        + ".clone().ok_or(Box::<dyn std::error::Error>::from(\"Please set "@ + name
        + "\"))?,\n"@
}

/// The member lines of the builder type, one per field, in field order.
pub open spec fn spec_member_lines(fields: Seq<FieldModel>) -> Seq<char>
    decreases fields.len(),
{
    if fields.len() == 0 {
        Seq::empty()
    } else {
        spec_member_lines(fields.drop_last()) + spec_declaration(
            fields.last().name,
            fields.last().ty,
        )
    }
}

/// The factory's member initializers, one per field, in field order.
pub open spec fn spec_default_lines(fields: Seq<FieldModel>) -> Seq<char>
    decreases fields.len(),
{
    if fields.len() == 0 {
        Seq::empty()
    } else {
        spec_default_lines(fields.drop_last()) + spec_default(fields.last().name)
    }
}

/// The setter methods, one per field, in field order.
pub open spec fn spec_setter_blocks(fields: Seq<FieldModel>) -> Seq<char>
    decreases fields.len(),
{
    if fields.len() == 0 {
        Seq::empty()
    } else {
        spec_setter_blocks(fields.drop_last()) + spec_setter(
            fields.last().name,
            fields.last().ty,
        )
    }
}

/// The `build` method's member initializers, one per field, in field order.
pub open spec fn spec_initialisation_lines(fields: Seq<FieldModel>) -> Seq<char>
    decreases fields.len(),
{
    if fields.len() == 0 {
        Seq::empty()
    } else {
        spec_initialisation_lines(fields.drop_last()) + spec_initialisation(fields.last().name)
    }
}

/// The builder type declaration fragment.
pub open spec fn spec_builder_declaration(builder_name: Seq<char>, fields: Seq<FieldModel>) -> Seq<
    char,
> {
    "struct "@ + builder_name + " {\n"@ + spec_member_lines(fields) + "}\n"@
}

/// The record-side factory fragment: `builder()` returns a fresh builder
/// with every member absent.
pub open spec fn spec_caller_implementation(
    record_name: Seq<char>,
    builder_name: Seq<char>,
    fields: Seq<FieldModel>,
) -> Seq<char> {
    "impl "@ + record_name + " {\n    fn builder() -> "@ + builder_name + " {\n        "@
        + builder_name + " {\n"@ + spec_default_lines(fields) + "        }\n    }\n}\n"@
}

/// The builder-side fragment: the setters, then the terminal `build`
/// method, which assembles the record or fails on the first absent field,
/// checking fields in declaration order.
pub open spec fn spec_builder_implementation(
    record_name: Seq<char>,
    builder_name: Seq<char>,
    fields: Seq<FieldModel>,
) -> Seq<char> {
    "impl "@ + builder_name + " {\n"@ + spec_setter_blocks(fields)
        + "    pub fn build(&self) -> Result<"@ + record_name
        + ", Box<dyn std::error::Error>> {\n        Ok("@ + record_name + " {\n"@
        + spec_initialisation_lines(fields) + "        })\n    }\n}\n"@
}

/// The full generated bundle: builder declaration, factory, setters and
/// assembly, concatenated in that order.
pub open spec fn spec_bundle(
    record_name: Seq<char>,
    builder_name: Seq<char>,
    fields: Seq<FieldModel>,
) -> Seq<char> {
    spec_builder_declaration(builder_name, fields) + spec_caller_implementation(
        record_name,
        builder_name,
        fields,
    ) + spec_builder_implementation(record_name, builder_name, fields)
}

proof fn lemma_member_lines_snoc(fields: Seq<FieldModel>, i: int)
    requires
        0 <= i < fields.len(),
    ensures
        spec_member_lines(fields.subrange(0, i + 1)) == spec_member_lines(fields.subrange(0, i))
            + spec_declaration(fields[i].name, fields[i].ty),
{
    let pre = fields.subrange(0, i + 1);
    assert(pre.drop_last() =~= fields.subrange(0, i));
    assert(pre.last() == fields[i]);
}

proof fn lemma_default_lines_snoc(fields: Seq<FieldModel>, i: int)
    requires
        0 <= i < fields.len(),
    ensures
        spec_default_lines(fields.subrange(0, i + 1)) == spec_default_lines(fields.subrange(0, i))
            + spec_default(fields[i].name),
{
    let pre = fields.subrange(0, i + 1);
    assert(pre.drop_last() =~= fields.subrange(0, i));
    assert(pre.last() == fields[i]);
}

proof fn lemma_setter_blocks_snoc(fields: Seq<FieldModel>, i: int)
    requires
        0 <= i < fields.len(),
    ensures
        spec_setter_blocks(fields.subrange(0, i + 1)) == spec_setter_blocks(fields.subrange(0, i))
            + spec_setter(fields[i].name, fields[i].ty),
{
    let pre = fields.subrange(0, i + 1);
    assert(pre.drop_last() =~= fields.subrange(0, i));
    assert(pre.last() == fields[i]);
}

proof fn lemma_initialisation_lines_snoc(fields: Seq<FieldModel>, i: int)
    requires
        0 <= i < fields.len(),
    ensures
        spec_initialisation_lines(fields.subrange(0, i + 1)) == spec_initialisation_lines(
            fields.subrange(0, i),
        ) + spec_initialisation(fields[i].name),
{
    let pre = fields.subrange(0, i + 1);
    assert(pre.drop_last() =~= fields.subrange(0, i));
    assert(pre.last() == fields[i]);
}

/// Writes one member line of the builder type.
pub fn write_declaration(name: &String, ty: &String) -> (r: String)
    ensures
        r@ == spec_declaration(name@, ty@),
{
    let mut s = String::from_str("    ");
    s.append(name.as_str());
    s.append(": Option<");
    s.append(ty.as_str());
    s.append(">,\n");
    s
}

/// Writes one absent-member initializer of the factory method.
pub fn write_default(name: &String) -> (r: String)
    ensures
        r@ == spec_default(name@),
{
    let mut s = String::from_str("            ");
    s.append(name.as_str());
    s.append(": None,\n");
    s
}

/// Writes one setter method.
pub fn write_setter(name: &String, ty: &String) -> (r: String)
    ensures
        r@ == spec_setter(name@, ty@),
{
    let mut s = String::from_str("    fn ");
    s.append(name.as_str());
    s.append("(&mut self, ");
    s.append(name.as_str());
    s.append(": ");
    s.append(ty.as_str());
    s.append(") -> &mut Self {\n        self.");
    s.append(name.as_str());
    s.append(" = Some(");
    s.append(name.as_str());
    s.append(");\n        self\n    }\n");
    s
}

/// Writes one member initializer of the `build` method.
pub fn write_initialisation(name: &String) -> (r: String)
    ensures
        r@ == spec_initialisation(name@),
{
    let mut s = String::from_str("            ");
    s.append(name.as_str());
    s.append(": self.");
    s.append(name.as_str());
    s.append(".clone().ok_or(Box::<dyn std::error::Error>::from(\"Please set ");
    s.append(name.as_str());
    s.append("\"))?,\n");
    s
}

/// Writes the builder type declaration.
#[verifier::loop_isolation(false)]
pub fn write_builder_declaration(builder_name: &String, fields: &Vec<NormalizedField>) -> (r:
    String)
    ensures
        r@ == spec_builder_declaration(builder_name@, fields.deep_view()),
{
    let mut s = String::from_str("struct ");
    s.append(builder_name.as_str());
    s.append(" {\n");
    let mut i: usize = 0;
    while i < fields.len()
        invariant
            i <= fields@.len(),
            s@ == "struct "@ + builder_name@ + " {\n"@ + spec_member_lines(
                fields.deep_view().subrange(0, i as int),
            ),
        decreases fields@.len() - i,
    {
        let line = write_declaration(&fields[i].name, &fields[i].ty);
        s.append(line.as_str());
        proof {
            lemma_member_lines_snoc(fields.deep_view(), i as int);
            assert(fields.deep_view()[i as int] == fields@[i as int]@);
        }
        i = i + 1;
    }
    proof {
        assert(fields.deep_view().subrange(0, fields@.len() as int) =~= fields.deep_view());
    }
    s.append("}\n");
    s
}

/// Writes the record-side implementation holding the factory method.
#[verifier::loop_isolation(false)]
pub fn write_caller_implementation(
    caller_name: &String,
    builder_name: &String,
    fields: &Vec<NormalizedField>,
) -> (r: String)
    ensures
        r@ == spec_caller_implementation(caller_name@, builder_name@, fields.deep_view()),
{
    let mut s = String::from_str("impl ");
    s.append(caller_name.as_str());
    s.append(" {\n    fn builder() -> ");
    s.append(builder_name.as_str());
    s.append(" {\n        ");
    s.append(builder_name.as_str());
    s.append(" {\n");
    let ghost head = s@;
    let mut i: usize = 0;
    while i < fields.len()
        invariant
            i <= fields@.len(),
            s@ == head + spec_default_lines(fields.deep_view().subrange(0, i as int)),
        decreases fields@.len() - i,
    {
        let line = write_default(&fields[i].name);
        s.append(line.as_str());
        proof {
            lemma_default_lines_snoc(fields.deep_view(), i as int);
            assert(fields.deep_view()[i as int] == fields@[i as int]@);
        }
        i = i + 1;
    }
    proof {
        assert(fields.deep_view().subrange(0, fields@.len() as int) =~= fields.deep_view());
    }
    s.append("        }\n    }\n}\n");
    s
}

/// Writes the builder-side implementation: the setters and `build`.
#[verifier::loop_isolation(false)]
pub fn write_builder_implementation(
    caller_name: &String,
    builder_name: &String,
    fields: &Vec<NormalizedField>,
) -> (r: String)
    ensures
        r@ == spec_builder_implementation(caller_name@, builder_name@, fields.deep_view()),
{
    let mut s = String::from_str("impl ");
    s.append(builder_name.as_str());
    s.append(" {\n");
    let ghost head = s@;
    let mut i: usize = 0;
    while i < fields.len()
        invariant
            i <= fields@.len(),
            s@ == head + spec_setter_blocks(fields.deep_view().subrange(0, i as int)),
        decreases fields@.len() - i,
    {
        let block = write_setter(&fields[i].name, &fields[i].ty);
        s.append(block.as_str());
        proof {
            lemma_setter_blocks_snoc(fields.deep_view(), i as int);
            assert(fields.deep_view()[i as int] == fields@[i as int]@);
        }
        i = i + 1;
    }
    proof {
        assert(fields.deep_view().subrange(0, fields@.len() as int) =~= fields.deep_view());
    }
    s.append("    pub fn build(&self) -> Result<");
    s.append(caller_name.as_str());
    s.append(", Box<dyn std::error::Error>> {\n        Ok(");
    s.append(caller_name.as_str());
    s.append(" {\n");
    let ghost mid = s@;
    let mut k: usize = 0;
    while k < fields.len()
        invariant
            k <= fields@.len(),
            s@ == mid + spec_initialisation_lines(fields.deep_view().subrange(0, k as int)),
        decreases fields@.len() - k,
    {
        let line = write_initialisation(&fields[k].name);
        s.append(line.as_str());
        proof {
            lemma_initialisation_lines_snoc(fields.deep_view(), k as int);
            assert(fields.deep_view()[k as int] == fields@[k as int]@);
        }
        k = k + 1;
    }
    proof {
        assert(fields.deep_view().subrange(0, fields@.len() as int) =~= fields.deep_view());
    }
    s.append("        })\n    }\n}\n");
    s
}

/// Generates the whole bundle for one record description: the builder type
/// named `<Record>Builder`, the factory, the setters and the assembly
/// method, concatenated. Succeeds exactly on the supported shapes and
/// signals `UnsupportedShape` on any other.
pub fn derive(input: &RecordDescription) -> (r: Result<String, DeriveError>)
    ensures
        r is Ok <==> shape_supported(input.shape),
        r matches Ok(out) ==> out@ == spec_bundle(
            input.name@,
            input.name@ + "Builder"@,
            spec_normalize(input.shape),
        ),
        r matches Err(e) ==> e == DeriveError::UnsupportedShape,
{
    let fields = match normalize(input) {
        Ok(fields) => fields,
        Err(e) => {
            return Err(e);
        },
    };
    let caller_name = &input.name;
    let mut builder_name = caller_name.clone();
    builder_name.append("Builder");

    let builder_declaration = write_builder_declaration(&builder_name, &fields);
    let caller_implementation = write_caller_implementation(caller_name, &builder_name, &fields);
    let builder_implementation = write_builder_implementation(caller_name, &builder_name, &fields);

    let mut out = builder_declaration;
    out.append(caller_implementation.as_str());
    out.append(builder_implementation.as_str());
    Ok(out)
}

} // verus!
