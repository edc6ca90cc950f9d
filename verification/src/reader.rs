//! The Record Descriptor Reader: turns a record description into the
//! normalized ordered sequence of `(name, type)` fields, synthesizing
//! `field<index>` names for positional fields and rejecting any shape other
//! than named fields, positional fields, or no fields.

use vstd::prelude::*;
use vstd::string::StringExecFns;

use crate::decimal::decimal_string;
use crate::decimal::lemma_decimal_injective;
use crate::decimal::spec_decimal;
use crate::record::DeriveError;
use crate::record::FieldModel;
use crate::record::FieldShape;
use crate::record::NormalizedField;
use crate::record::RecordDescription;

verus! {

/// The name synthesized for the positional field at `index`.
pub open spec fn synthesized_name(index: nat) -> Seq<char> {
    "field"@ + spec_decimal(index)
}

/// Whether the generator supports a shape.
pub open spec fn shape_supported(shape: FieldShape) -> bool {
    !(shape is Unsupported)
}

/// The normalized field sequence of a shape: named fields verbatim,
/// positional fields under synthesized names, nothing for a fieldless
/// record. (An unsupported shape has no meaningful normalization; the
/// Reader rejects it before this function matters.)
pub open spec fn spec_normalize(shape: FieldShape) -> Seq<FieldModel> {
    match shape {
        FieldShape::NamedFields(pairs) => Seq::new(
            pairs@.len(),
            |i: int| FieldModel { name: pairs@[i].0@, ty: pairs@[i].1@ },
        ),
        FieldShape::PositionalFields(tys) => Seq::new(
            tys@.len(),
            |i: int| FieldModel { name: synthesized_name(i as nat), ty: tys@[i]@ },
        ),
        FieldShape::NoFields => Seq::empty(),
        FieldShape::Unsupported => Seq::empty(),
    }
}

/// The Reader's naming rule for one field: the declared name where there is
/// one, `field<index>` where there is none.
pub fn derive_field_name(ident: Option<&String>, index: usize) -> (r: String)
    ensures
        ident matches Some(name) ==> r@ == name@,
        ident is None ==> r@ == synthesized_name(index as nat),
{
    match ident {
        Some(name) => name.clone(),
        None => {
            let mut s = String::from_str("field");
            let digits = decimal_string(index);
            s.append(digits.as_str());
            s
        },
    }
}

/// Normalizes a record description: returns the field sequence for the
/// three supported shapes, and `UnsupportedShape` — and nothing else — for
/// any other shape.
#[verifier::loop_isolation(false)]
pub fn normalize(description: &RecordDescription) -> (r: Result<
    Vec<NormalizedField>,
    DeriveError,
>)
    ensures
        r is Ok <==> shape_supported(description.shape),
        r matches Ok(fields) ==> fields.deep_view() == spec_normalize(description.shape),
        r matches Err(e) ==> e == DeriveError::UnsupportedShape,
{
    match &description.shape {
        FieldShape::NamedFields(pairs) => {
            let mut fields: Vec<NormalizedField> = Vec::new();
            let mut i: usize = 0;
            while i < pairs.len()
                invariant
                    i <= pairs@.len(),
                    fields@.len() == i,
                    forall|j: int|
                        0 <= j < i ==> #[trigger] fields@[j]@ == spec_normalize(
                            description.shape,
                        )[j],
                decreases pairs@.len() - i,
            {
                let name = derive_field_name(Some(&pairs[i].0), i);
                let ty = pairs[i].1.clone();
                fields.push(NormalizedField { name, ty });
                proof {
                    assert(fields@[i as int]@ == spec_normalize(description.shape)[i as int]);
                }
                i = i + 1;
            }
            proof {
                assert(fields.deep_view() =~= spec_normalize(description.shape));
            }
            Ok(fields)
        },
        FieldShape::PositionalFields(tys) => {
            let mut fields: Vec<NormalizedField> = Vec::new();
            let mut i: usize = 0;
            while i < tys.len()
                invariant
                    i <= tys@.len(),
                    fields@.len() == i,
                    forall|j: int|
                        0 <= j < i ==> #[trigger] fields@[j]@ == spec_normalize(
                            description.shape,
                        )[j],
                decreases tys@.len() - i,
            {
                let name = derive_field_name(None, i);
                let ty = tys[i].clone();
                fields.push(NormalizedField { name, ty });
                proof {
                    assert(fields@[i as int]@ == spec_normalize(description.shape)[i as int]);
                }
                i = i + 1;
            }
            proof {
                assert(fields.deep_view() =~= spec_normalize(description.shape));
            }
            Ok(fields)
        },
        FieldShape::NoFields => {
            let fields: Vec<NormalizedField> = Vec::new();
            proof {
                assert(fields.deep_view() =~= spec_normalize(description.shape));
            }
            Ok(fields)
        },
        FieldShape::Unsupported => Err(DeriveError::UnsupportedShape),
    }
}

/// Reading the same description twice yields identical field sequences,
/// element for element: any two results that meet the Reader's contract
/// agree.
pub proof fn lemma_normalize_deterministic(
    description: &RecordDescription,
    first: Vec<NormalizedField>,
    second: Vec<NormalizedField>,
)
    requires
        first.deep_view() == spec_normalize(description.shape),
        second.deep_view() == spec_normalize(description.shape),
    ensures
        first.deep_view() == second.deep_view(),
{
}

/// Positional names depend on position alone: a positional record with `N`
/// fields gets exactly the names `field0 .. field{N-1}`, in declaration
/// order, whatever the field types are.
pub proof fn lemma_positional_names(tys: Vec<String>, others: Vec<String>)
    requires
        tys@.len() == others@.len(),
    ensures
        forall|i: int|
            0 <= i < tys@.len() ==> spec_normalize(FieldShape::PositionalFields(tys))[i].name
                == synthesized_name(i as nat),
        forall|i: int|
            0 <= i < tys@.len() ==> spec_normalize(FieldShape::PositionalFields(tys))[i].name
                == spec_normalize(FieldShape::PositionalFields(others))[i].name,
{
}

/// Distinct positions synthesize distinct names.
pub proof fn lemma_synthesized_names_unique(i: nat, j: nat)
    requires
        i != j,
    ensures
        synthesized_name(i) != synthesized_name(j),
{
    if synthesized_name(i) == synthesized_name(j) {
        let p = "field"@;
        let di = spec_decimal(i);
        let dj = spec_decimal(j);
        assert((p + di).len() == p.len() + di.len());
        assert((p + dj).len() == p.len() + dj.len());
        assert(p + di == p + dj);
        assert(di.len() == dj.len());
        assert forall|k: int| 0 <= k < di.len() implies di[k] == dj[k] by {
            assert((p + di)[p.len() + k] == di[k]);
            assert((p + dj)[p.len() + k] == dj[k]);
        }
        assert(di =~= dj);
        lemma_decimal_injective(i, j);
    }
}

/// Within one positional record every normalized name is unique: positions
/// are unique, and the synthesized name pins the position. (Named-field
/// sources are assumed well-formed by the host language and not
/// re-validated here.)
pub proof fn lemma_positional_names_unique(tys: Vec<String>)
    ensures
        forall|i: int, j: int|
            0 <= i < tys@.len() && 0 <= j < tys@.len() && i != j ==> spec_normalize(
                FieldShape::PositionalFields(tys),
            )[i].name != spec_normalize(FieldShape::PositionalFields(tys))[j].name,
{
    assert forall|i: int, j: int|
        0 <= i < tys@.len() && 0 <= j < tys@.len() && i != j implies spec_normalize(
        FieldShape::PositionalFields(tys),
    )[i].name != spec_normalize(FieldShape::PositionalFields(tys))[j].name by {
        lemma_synthesized_names_unique(i as nat, j as nat);
    }
}

} // verus!
