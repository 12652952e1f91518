//! The container of named arrays, and the field loader.
//!
//! The container is `matfile`'s `MatFile`, already parsed by the caller.
//! Verus does not look inside it: what it holds is named by uninterpreted
//! functions, and the `matfile` methods in use are given contracts over
//! those names. The loader itself is proved from those contracts.

use vstd::prelude::*;
use crate::error::EstimationError;
use crate::tensor::{element_count, representable, Tensor, TensorView};

verus! {

/// `matfile::MatFile`, a parsed container, as an opaque type.
#[verifier::external_type_specification]
#[verifier::external_body]
pub struct ExMatFile(matfile::MatFile);

/// `matfile::Array`, one named array of a container, as an opaque type.
#[verifier::external_type_specification]
#[verifier::external_body]
pub struct ExArray(matfile::Array);

/// What the data of one array are, as far as the loader is concerned.
pub enum FieldData {
    /// Data of the double kind.
    Doubles {
        /// The bit patterns of the real parts, in column-major order.
        parts: Seq<u64>,
        /// Whether the array has imaginary parts as well.
        complex: bool,
    },
    /// Data of any other kind: integers or single-precision floats.
    Other,
}

/// What one array of a container is, as far as the loader is concerned.
pub struct FieldModel {
    /// The name under which the array is stored.
    pub name: Seq<char>,
    /// The axis lengths, first axis first.
    pub size: Seq<usize>,
    /// The data.
    pub data: FieldData,
}

/// The arrays of a container, in the order in which the container lists them.
pub uninterp spec fn container_fields(file: matfile::MatFile) -> Seq<FieldModel>;

/// What one array of a container holds.
pub uninterp spec fn array_model(array: matfile::Array) -> FieldModel;

/// The first field called `name`, if there is one.
pub open spec fn first_named(fields: Seq<FieldModel>, name: Seq<char>) -> Option<FieldModel>
    decreases fields.len(),
{
    if fields.len() == 0 {
        None
    } else if fields[0].name == name {
        Some(fields[0])
    } else {
        first_named(fields.drop_first(), name)
    }
}

impl FieldModel {
    /// Whether the field can be turned into a tensor: it holds real doubles,
    /// as many as its axis lengths say, and those lengths are representable.
    pub open spec fn loadable(self) -> bool {
        &&& self.data matches FieldData::Doubles { parts, complex }
        &&& !complex
        &&& representable(self.size)
        &&& element_count(self.size) == parts.len()
    }

    /// The tensor that a loadable field becomes.
    pub open spec fn tensor(self) -> TensorView {
        TensorView { dims: self.size, elements: self.data->parts }
    }
}

/// What loading `name` from a container with these fields gives: the tensor
/// of the first field of that name, provided that field is loadable.
pub open spec fn loaded(fields: Seq<FieldModel>, name: Seq<char>) -> Option<TensorView> {
    match first_named(fields, name) {
        Some(field) => if field.loadable() {
            Some(field.tensor())
        } else {
            None
        },
        None => None,
    }
}

/// A name that no field has is not found.
pub proof fn lemma_absent_name(fields: Seq<FieldModel>, name: Seq<char>)
    requires
        forall|i: int| 0 <= i < fields.len() ==> fields[i].name != name,
    ensures
        first_named(fields, name).is_none(),
        loaded(fields, name).is_none(),
    decreases fields.len(),
{
    if fields.len() > 0 {
        let rest = fields.drop_first();
        assert forall|i: int| 0 <= i < rest.len() implies rest[i].name != name by {
            assert(rest[i] == fields[i + 1]);
        }
        lemma_absent_name(rest, name);
    }
}

/// `matfile::MatFile::find_by_name`: the first array of the container whose
/// name is `name`, compared case-sensitively, or `None` if no array has it.
#[verifier::external_body]
fn find_array<'a>(file: &'a matfile::MatFile, name: &str) -> (found: Option<&'a matfile::Array>)
    ensures
        match found {
            Some(array) => first_named(container_fields(*file), name@) == Some(array_model(*array)),
            None => first_named(container_fields(*file), name@).is_none(),
        },
{
    file.find_by_name(name)
}

/// `matfile::Array::size`: the axis lengths of the array.
#[verifier::external_body]
fn array_size(array: &matfile::Array) -> (size: Vec<usize>)
    ensures
        size@ == array_model(*array).size,
{
    array.size().clone()
}

/// `matfile::Array::data`: for data of the `Double` kind, the real part with
/// each element as its bit pattern, and whether an imaginary part is there;
/// `None` for data of any other kind.
#[verifier::external_body]
fn array_doubles(array: &matfile::Array) -> (doubles: Option<(Vec<u64>, bool)>)
    ensures
        match doubles {
            Some((parts, complex)) => array_model(*array).data == (FieldData::Doubles {
                parts: parts@,
                complex,
            }),
            None => array_model(*array).data == FieldData::Other,
        },
{
    match array.data() {
        matfile::NumericData::Double { real: values, imag } => {
            Some((values.iter().map(|value| value.to_bits()).collect(), imag.is_some()))
        },
        _ => None,
    }
}

/// Loads the field `name` of a container as a tensor with the field's own
/// shape. Fails with a parse error when no field has that name, when the
/// field does not hold real doubles, or when its data do not fill its shape.
/// The shape itself is not judged here.
pub fn load(file: &matfile::MatFile, name: &str) -> (outcome: Result<Tensor, EstimationError>)
    ensures
        match outcome {
            Ok(tensor) => loaded(container_fields(*file), name@) == Some(tensor@)
                && tensor@.consistent(),
            Err(error) => error == EstimationError::ParseError && loaded(
                container_fields(*file),
                name@,
            ).is_none(),
        },
{
    let array = match find_array(file, name) {
        Some(array) => array,
        None => return Err(EstimationError::ParseError),
    };
    let bits = match array_doubles(array) {
        Some((parts, false)) => parts,
        _ => return Err(EstimationError::ParseError),
    };
    let size = array_size(array);
    match Tensor::from_column_major(size.as_slice(), bits) {
        Some(tensor) => Ok(tensor),
        None => Err(EstimationError::ParseError),
    }
}

} // verus!
