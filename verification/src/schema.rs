//! The shapes that the required fields must have, and loaders that hold a
//! field to its shape.
//!
//! | field | shape |
//! |---|---|
//! | `rho_v_c_v` | 3×1 |
//! | `rho_i_pj_i` | 3×M |
//! | `y_k_j` | 4×K×J |
//! | `C_c_v` | 3×3 |
//! | `theta_vk_i`, `r_i_vk_i`, `w_vk_vk_i`, `v_vk_vk_i` | 3×N |
//! | `t` | 1×N |
//! | `v_var`, `w_var` | 3×1 |
//! | `y_var` | 4×1 |
//! | `fu`, `fv`, `cu`, `cv`, `b` | 1×1 |
//!
//! `M`, `K`, `J` and `N` are at least one, and `N` is the same in all five
//! fields that have it.

use vstd::prelude::*;
use crate::container::{container_fields, load, loaded};
use crate::error::EstimationError;
use crate::tensor::{lemma_two_axes, Tensor};

verus! {

/// Axis lengths of a matrix with `rows` rows and at least one column.
pub open spec fn has_rows(dims: Seq<usize>, rows: usize) -> bool {
    dims.len() == 2 && dims[0] == rows && dims[1] > 0
}

/// Axis lengths of a three-axis array whose first axis has length `rows` and
/// whose other two axes are not empty.
pub open spec fn is_stack(dims: Seq<usize>, rows: usize) -> bool {
    dims.len() == 3 && dims[0] == rows && dims[1] > 0 && dims[2] > 0
}

/// Axis lengths of a 1×1 matrix.
pub open spec fn is_single(dims: Seq<usize>) -> bool {
    dims == seq![1usize, 1usize]
}

/// The sole element of a 1×1 tensor. Fails with a parse error when the
/// tensor has any other shape.
pub fn scalar_of(tensor: &Tensor) -> (outcome: Result<u64, EstimationError>)
    ensures
        match outcome {
            Ok(value) => is_single(tensor@.dims) && value == tensor@.elements[0],
            Err(error) => error == EstimationError::ParseError && !is_single(tensor@.dims),
        },
{
    if !tensor.has_shape([1, 1].as_slice()) {
        return Err(EstimationError::ParseError);
    }
    proof {
        lemma_two_axes(1, 1, 0, 0);
    }
    Ok(tensor.get([0, 0].as_slice()).unwrap())
}

/// Loads `name` and holds it to exactly the axis lengths `shape`.
pub fn load_shaped(file: &matfile::MatFile, name: &str, shape: &[usize]) -> (outcome: Result<
    Tensor,
    EstimationError,
>)
    ensures
        match outcome {
            Ok(tensor) => {
                &&& loaded(container_fields(*file), name@) == Some(tensor@)
                &&& tensor@.dims == shape@
                &&& tensor@.consistent()
            },
            Err(error) => {
                &&& error == EstimationError::ParseError
                &&& !(loaded(container_fields(*file), name@) matches Some(found) && found.dims
                    == shape@)
            },
        },
{
    let tensor = load(file, name)?;
    if tensor.has_shape(shape) {
        Ok(tensor)
    } else {
        Err(EstimationError::ParseError)
    }
}

/// Loads `name` and holds it to `rows` rows and at least one column.
pub fn load_rows(file: &matfile::MatFile, name: &str, rows: usize) -> (outcome: Result<
    Tensor,
    EstimationError,
>)
    ensures
        match outcome {
            Ok(tensor) => {
                &&& loaded(container_fields(*file), name@) == Some(tensor@)
                &&& has_rows(tensor@.dims, rows)
                &&& tensor@.consistent()
            },
            Err(error) => {
                &&& error == EstimationError::ParseError
                &&& !(loaded(container_fields(*file), name@) matches Some(found) && has_rows(
                    found.dims,
                    rows,
                ))
            },
        },
{
    let tensor = load(file, name)?;
    let dims = tensor.shape();
    if dims.len() == 2 && dims[0] == rows && dims[1] > 0 {
        Ok(tensor)
    } else {
        Err(EstimationError::ParseError)
    }
}

/// Loads `name` and holds it to three axes, the first of length `rows`, the
/// other two not empty.
pub fn load_stack(file: &matfile::MatFile, name: &str, rows: usize) -> (outcome: Result<
    Tensor,
    EstimationError,
>)
    ensures
        match outcome {
            Ok(tensor) => {
                &&& loaded(container_fields(*file), name@) == Some(tensor@)
                &&& is_stack(tensor@.dims, rows)
                &&& tensor@.consistent()
            },
            Err(error) => {
                &&& error == EstimationError::ParseError
                &&& !(loaded(container_fields(*file), name@) matches Some(found) && is_stack(
                    found.dims,
                    rows,
                ))
            },
        },
{
    let tensor = load(file, name)?;
    let dims = tensor.shape();
    if dims.len() == 3 && dims[0] == rows && dims[1] > 0 && dims[2] > 0 {
        Ok(tensor)
    } else {
        Err(EstimationError::ParseError)
    }
}

/// Loads `name`, holds it to 1×1 and takes its sole element.
pub fn load_scalar(file: &matfile::MatFile, name: &str) -> (outcome: Result<u64, EstimationError>)
    ensures
        match outcome {
            Ok(value) => {
                &&& loaded(container_fields(*file), name@) matches Some(found)
                &&& is_single(found.dims)
                &&& value == found.elements[0]
            },
            Err(error) => {
                &&& error == EstimationError::ParseError
                &&& !(loaded(container_fields(*file), name@) matches Some(found) && is_single(
                    found.dims,
                ))
            },
        },
{
    let tensor = load(file, name)?;
    scalar_of(&tensor)
}

} // verus!
