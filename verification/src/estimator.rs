//! The assembled dataset: every required field of a container, held to its
//! expected shape, together with the derived time steps and the
//! camera/vehicle transform.
//!
//! Assembly is all or nothing. The fields are loaded in a fixed order and
//! the first one that is missing or malformed ends the assembly with a parse
//! error; no partly filled dataset is ever handed out.

use vstd::prelude::*;
use crate::binary64::{is_non_decreasing, non_decreasing, ZERO};
use crate::container::{container_fields, lemma_absent_name, loaded, FieldModel};
use crate::derived::{
    homogeneous_transform, lemma_time_deltas_are_unique, time_deltas, time_steps, transform_of,
};
use crate::error::EstimationError;
use crate::schema::{has_rows, is_single, is_stack, load_rows, load_scalar, load_shaped, load_stack};
use crate::tensor::{lemma_one_axis, lemma_positive_count, lemma_two_axes, Tensor, TensorView};

verus! {

/// The inputs of a batch estimation problem.
#[derive(Debug)]
pub struct BatchEstimator {
    rho_v_c_v: Tensor,
    rho_i_pj_i: Tensor,
    y_k_j: Tensor,
    c_c_v: Tensor,
    theta_vk_i: Tensor,
    r_i_vk_i: Tensor,
    t: Tensor,
    w_vk_vk_i: Tensor,
    v_vk_vk_i: Tensor,
    v_var: Tensor,
    w_var: Tensor,
    y_var: Tensor,
    fu: u64,
    fv: u64,
    cu: u64,
    cv: u64,
    b: u64,
    time_steps: Tensor,
    t_c_v: Tensor,
}

/// What a dataset is, mathematically.
pub struct DatasetView {
    /// Position of the camera in the vehicle frame, 3×1.
    pub rho_v_c_v: TensorView,
    /// Positions of the landmarks in the inertial frame, 3×M.
    pub rho_i_pj_i: TensorView,
    /// Stereo pixel measurements per time step and landmark, 4×K×J.
    pub y_k_j: TensorView,
    /// Rotation from the vehicle frame to the camera frame, 3×3.
    pub c_c_v: TensorView,
    /// Orientation of the vehicle over time as axis-angle, 3×N.
    pub theta_vk_i: TensorView,
    /// Position of the vehicle over time, 3×N.
    pub r_i_vk_i: TensorView,
    /// Timestamps, 1×N, in non-decreasing order.
    pub t: TensorView,
    /// Angular velocity input, 3×N.
    pub w_vk_vk_i: TensorView,
    /// Linear velocity input, 3×N.
    pub v_vk_vk_i: TensorView,
    /// Variance of the linear velocity noise, 3×1.
    pub v_var: TensorView,
    /// Variance of the angular velocity noise, 3×1.
    pub w_var: TensorView,
    /// Variance of the measurement noise, 4×1.
    pub y_var: TensorView,
    /// Horizontal focal length.
    pub fu: u64,
    /// Vertical focal length.
    pub fv: u64,
    /// Horizontal coordinate of the principal point.
    pub cu: u64,
    /// Vertical coordinate of the principal point.
    pub cv: u64,
    /// Stereo baseline.
    pub b: u64,
    /// Time elapsed before each sample, one axis of length N, the first
    /// element zero.
    pub time_steps: TensorView,
    /// Homogeneous transform assembled from `c_c_v` and `rho_v_c_v`, 4×4.
    pub t_c_v: TensorView,
}

impl DatasetView {
    /// The number of samples: the `N` of the shape table.
    pub open spec fn samples(self) -> usize {
        self.t.dims[1]
    }

    /// What every dataset satisfies: each array has its expected shape and
    /// as many elements as that shape says, the timestamps do not decrease,
    /// there is one time step per timestamp, the first of them zero, and the
    /// transform is the one assembled from the rotation and the camera
    /// position.
    pub open spec fn valid(self) -> bool {
        &&& self.rho_v_c_v.consistent() && self.rho_v_c_v.dims == seq![3usize, 1usize]
        &&& self.rho_i_pj_i.consistent() && has_rows(self.rho_i_pj_i.dims, 3)
        &&& self.y_k_j.consistent() && is_stack(self.y_k_j.dims, 4)
        &&& self.c_c_v.consistent() && self.c_c_v.dims == seq![3usize, 3usize]
        &&& self.t.consistent() && has_rows(self.t.dims, 1)
        &&& non_decreasing(self.t.elements)
        &&& self.theta_vk_i.consistent() && self.theta_vk_i.dims == seq![3usize, self.samples()]
        &&& self.r_i_vk_i.consistent() && self.r_i_vk_i.dims == seq![3usize, self.samples()]
        &&& self.w_vk_vk_i.consistent() && self.w_vk_vk_i.dims == seq![3usize, self.samples()]
        &&& self.v_vk_vk_i.consistent() && self.v_vk_vk_i.dims == seq![3usize, self.samples()]
        &&& self.v_var.consistent() && self.v_var.dims == seq![3usize, 1usize]
        &&& self.w_var.consistent() && self.w_var.dims == seq![3usize, 1usize]
        &&& self.y_var.consistent() && self.y_var.dims == seq![4usize, 1usize]
        &&& self.time_steps.consistent() && self.time_steps.dims == seq![self.samples()]
        &&& self.time_steps.elements[0] == ZERO
        &&& self.t_c_v.consistent() && self.t_c_v == transform_of(self.c_c_v, self.rho_v_c_v)
    }
}

/// The names of the fields that a container must hold, in the order in which
/// they are loaded.
pub open spec fn required_keys() -> Seq<Seq<char>> {
    seq![
        "rho_v_c_v"@,
        "rho_i_pj_i"@,
        "y_k_j"@,
        "C_c_v"@,
        "theta_vk_i"@,
        "r_i_vk_i"@,
        "t"@,
        "w_vk_vk_i"@,
        "v_vk_vk_i"@,
        "v_var"@,
        "w_var"@,
        "y_var"@,
        "fu"@,
        "fv"@,
        "cu"@,
        "cv"@,
        "b"@,
    ]
}

/// The names of the fields that hold a scalar.
pub open spec fn scalar_keys() -> Seq<Seq<char>> {
    seq!["fu"@, "fv"@, "cu"@, "cv"@, "b"@]
}

/// Whether a container with these fields holds a whole dataset: each
/// required field is there as real doubles in its expected shape, and the
/// timestamps do not decrease.
pub open spec fn well_formed(fields: Seq<FieldModel>) -> bool {
    &&& loaded(fields, "rho_v_c_v"@) matches Some(rho_v_c_v)
    &&& rho_v_c_v.dims == seq![3usize, 1usize]
    &&& loaded(fields, "rho_i_pj_i"@) matches Some(rho_i_pj_i)
    &&& has_rows(rho_i_pj_i.dims, 3)
    &&& loaded(fields, "y_k_j"@) matches Some(y_k_j)
    &&& is_stack(y_k_j.dims, 4)
    &&& loaded(fields, "C_c_v"@) matches Some(c_c_v)
    &&& c_c_v.dims == seq![3usize, 3usize]
    &&& loaded(fields, "theta_vk_i"@) matches Some(theta_vk_i)
    &&& has_rows(theta_vk_i.dims, 3)
    &&& loaded(fields, "r_i_vk_i"@) matches Some(r_i_vk_i)
    &&& r_i_vk_i.dims == seq![3usize, theta_vk_i.dims[1]]
    &&& loaded(fields, "t"@) matches Some(t)
    &&& t.dims == seq![1usize, theta_vk_i.dims[1]]
    &&& non_decreasing(t.elements)
    &&& loaded(fields, "w_vk_vk_i"@) matches Some(w_vk_vk_i)
    &&& w_vk_vk_i.dims == seq![3usize, theta_vk_i.dims[1]]
    &&& loaded(fields, "v_vk_vk_i"@) matches Some(v_vk_vk_i)
    &&& v_vk_vk_i.dims == seq![3usize, theta_vk_i.dims[1]]
    &&& loaded(fields, "v_var"@) matches Some(v_var)
    &&& v_var.dims == seq![3usize, 1usize]
    &&& loaded(fields, "w_var"@) matches Some(w_var)
    &&& w_var.dims == seq![3usize, 1usize]
    &&& loaded(fields, "y_var"@) matches Some(y_var)
    &&& y_var.dims == seq![4usize, 1usize]
    &&& loaded(fields, "fu"@) matches Some(fu)
    &&& is_single(fu.dims)
    &&& loaded(fields, "fv"@) matches Some(fv)
    &&& is_single(fv.dims)
    &&& loaded(fields, "cu"@) matches Some(cu)
    &&& is_single(cu.dims)
    &&& loaded(fields, "cv"@) matches Some(cv)
    &&& is_single(cv.dims)
    &&& loaded(fields, "b"@) matches Some(b)
    &&& is_single(b.dims)
}

/// Whether `dataset` is what a well-formed container with these fields
/// assembles to: each array is the field of its name, unchanged; each scalar
/// is the sole element of its field; the time steps are those of the
/// timestamps under `difference`; and the transform is assembled from the
/// rotation and the camera position.
pub open spec fn assembled<F: Fn(u64, u64) -> u64>(
    fields: Seq<FieldModel>,
    difference: F,
    dataset: DatasetView,
) -> bool {
    &&& loaded(fields, "rho_v_c_v"@) == Some(dataset.rho_v_c_v)
    &&& loaded(fields, "rho_i_pj_i"@) == Some(dataset.rho_i_pj_i)
    &&& loaded(fields, "y_k_j"@) == Some(dataset.y_k_j)
    &&& loaded(fields, "C_c_v"@) == Some(dataset.c_c_v)
    &&& loaded(fields, "theta_vk_i"@) == Some(dataset.theta_vk_i)
    &&& loaded(fields, "r_i_vk_i"@) == Some(dataset.r_i_vk_i)
    &&& loaded(fields, "t"@) == Some(dataset.t)
    &&& loaded(fields, "w_vk_vk_i"@) == Some(dataset.w_vk_vk_i)
    &&& loaded(fields, "v_vk_vk_i"@) == Some(dataset.v_vk_vk_i)
    &&& loaded(fields, "v_var"@) == Some(dataset.v_var)
    &&& loaded(fields, "w_var"@) == Some(dataset.w_var)
    &&& loaded(fields, "y_var"@) == Some(dataset.y_var)
    &&& loaded(fields, "fu"@) matches Some(fu) && dataset.fu == fu.elements[0]
    &&& loaded(fields, "fv"@) matches Some(fv) && dataset.fv == fv.elements[0]
    &&& loaded(fields, "cu"@) matches Some(cu) && dataset.cu == cu.elements[0]
    &&& loaded(fields, "cv"@) matches Some(cv) && dataset.cv == cv.elements[0]
    &&& loaded(fields, "b"@) matches Some(b) && dataset.b == b.elements[0]
    &&& dataset.time_steps.dims == seq![dataset.t.dims[1]]
    &&& time_deltas(difference, dataset.t.elements, dataset.time_steps.elements)
    &&& dataset.t_c_v == transform_of(dataset.c_c_v, dataset.rho_v_c_v)
}

impl View for BatchEstimator {
    type V = DatasetView;

    closed spec fn view(&self) -> DatasetView {
        DatasetView {
            rho_v_c_v: self.rho_v_c_v@,
            rho_i_pj_i: self.rho_i_pj_i@,
            y_k_j: self.y_k_j@,
            c_c_v: self.c_c_v@,
            theta_vk_i: self.theta_vk_i@,
            r_i_vk_i: self.r_i_vk_i@,
            t: self.t@,
            w_vk_vk_i: self.w_vk_vk_i@,
            v_vk_vk_i: self.v_vk_vk_i@,
            v_var: self.v_var@,
            w_var: self.w_var@,
            y_var: self.y_var@,
            fu: self.fu,
            fv: self.fv,
            cu: self.cu,
            cv: self.cv,
            b: self.b,
            time_steps: self.time_steps@,
            t_c_v: self.t_c_v@,
        }
    }
}

impl BatchEstimator {
    #[verifier::type_invariant]
    spec fn always_valid(self) -> bool {
        self@.valid()
    }

    /// Assembles the dataset from an opened container.
    ///
    /// Succeeds exactly when the container is well formed, and the dataset
    /// is then the one that the container assembles to. Any shortcoming of
    /// the container is a parse error.
    ///
    /// The library does no floating-point arithmetic, so the caller supplies
    /// `difference`: the subtraction of two doubles given as bit patterns.
    pub fn new<F: Fn(u64, u64) -> u64>(file: &matfile::MatFile, difference: F) -> (outcome: Result<
        BatchEstimator,
        EstimationError,
    >)
        requires
            forall|a: u64, b: u64| call_requires(difference, (a, b)),
        ensures
            match outcome {
                Ok(dataset) => {
                    &&& well_formed(container_fields(*file))
                    &&& assembled(container_fields(*file), difference, dataset@)
                    &&& dataset@.valid()
                },
                Err(error) => error == EstimationError::ParseError && !well_formed(
                    container_fields(*file),
                ),
            },
    {
        let rho_v_c_v = load_shaped(file, "rho_v_c_v", [3, 1].as_slice())?;
        let rho_i_pj_i = load_rows(file, "rho_i_pj_i", 3)?;
        let y_k_j = load_stack(file, "y_k_j", 4)?;
        let c_c_v = load_shaped(file, "C_c_v", [3, 3].as_slice())?;
        let theta_vk_i = load_rows(file, "theta_vk_i", 3)?;
        let samples = theta_vk_i.shape()[1];
        let r_i_vk_i = load_shaped(file, "r_i_vk_i", [3, samples].as_slice())?;
        let t = load_shaped(file, "t", [1, samples].as_slice())?;
        if !is_non_decreasing(&t.to_vec()) {
            return Err(EstimationError::ParseError);
        }
        let w_vk_vk_i = load_shaped(file, "w_vk_vk_i", [3, samples].as_slice())?;
        let v_vk_vk_i = load_shaped(file, "v_vk_vk_i", [3, samples].as_slice())?;
        let v_var = load_shaped(file, "v_var", [3, 1].as_slice())?;
        let w_var = load_shaped(file, "w_var", [3, 1].as_slice())?;
        let y_var = load_shaped(file, "y_var", [4, 1].as_slice())?;
        let fu = load_scalar(file, "fu")?;
        let fv = load_scalar(file, "fv")?;
        let cu = load_scalar(file, "cu")?;
        let cv = load_scalar(file, "cv")?;
        let b = load_scalar(file, "b")?;
        let time_steps = time_steps(&t, difference)?;
        let t_c_v = homogeneous_transform(&c_c_v, &rho_v_c_v)?;
        proof {
            lemma_two_axes(1, samples, 0, 0);
            assert(theta_vk_i@.dims =~= seq![3usize, samples]);
        }
        Ok(
            BatchEstimator {
                rho_v_c_v,
                rho_i_pj_i,
                y_k_j,
                c_c_v,
                theta_vk_i,
                r_i_vk_i,
                t,
                w_vk_vk_i,
                v_vk_vk_i,
                v_var,
                w_var,
                y_var,
                fu,
                fv,
                cu,
                cv,
                b,
                time_steps,
                t_c_v,
            },
        )
    }

    /// The position of the camera in the vehicle frame, 3×1.
    pub fn rho_v_c_v(&self) -> (tensor: &Tensor)
        ensures
            tensor@ == self@.rho_v_c_v,
            self@.valid(),
    {
        proof {
            use_type_invariant(self);
        }
        &self.rho_v_c_v
    }

    /// The positions of the landmarks in the inertial frame, 3×M.
    pub fn rho_i_pj_i(&self) -> (tensor: &Tensor)
        ensures
            tensor@ == self@.rho_i_pj_i,
            self@.valid(),
    {
        proof {
            use_type_invariant(self);
        }
        &self.rho_i_pj_i
    }

    /// The stereo pixel measurements per time step and landmark, 4×K×J.
    pub fn y_k_j(&self) -> (tensor: &Tensor)
        ensures
            tensor@ == self@.y_k_j,
            self@.valid(),
    {
        proof {
            use_type_invariant(self);
        }
        &self.y_k_j
    }

    /// The rotation from the vehicle frame to the camera frame, 3×3.
    pub fn c_c_v(&self) -> (tensor: &Tensor)
        ensures
            tensor@ == self@.c_c_v,
            self@.valid(),
    {
        proof {
            use_type_invariant(self);
        }
        &self.c_c_v
    }

    /// The orientation of the vehicle over time as axis-angle, 3×N.
    pub fn theta_vk_i(&self) -> (tensor: &Tensor)
        ensures
            tensor@ == self@.theta_vk_i,
            self@.valid(),
    {
        proof {
            use_type_invariant(self);
        }
        &self.theta_vk_i
    }

    /// The position of the vehicle over time, 3×N.
    pub fn r_i_vk_i(&self) -> (tensor: &Tensor)
        ensures
            tensor@ == self@.r_i_vk_i,
            self@.valid(),
    {
        proof {
            use_type_invariant(self);
        }
        &self.r_i_vk_i
    }

    /// The timestamps, 1×N.
    pub fn t(&self) -> (tensor: &Tensor)
        ensures
            tensor@ == self@.t,
            self@.valid(),
    {
        proof {
            use_type_invariant(self);
        }
        &self.t
    }

    /// The angular velocity input, 3×N.
    pub fn w_vk_vk_i(&self) -> (tensor: &Tensor)
        ensures
            tensor@ == self@.w_vk_vk_i,
            self@.valid(),
    {
        proof {
            use_type_invariant(self);
        }
        &self.w_vk_vk_i
    }

    /// The linear velocity input, 3×N.
    pub fn v_vk_vk_i(&self) -> (tensor: &Tensor)
        ensures
            tensor@ == self@.v_vk_vk_i,
            self@.valid(),
    {
        proof {
            use_type_invariant(self);
        }
        &self.v_vk_vk_i
    }

    /// The variance of the linear velocity noise, 3×1.
    pub fn v_var(&self) -> (tensor: &Tensor)
        ensures
            tensor@ == self@.v_var,
            self@.valid(),
    {
        proof {
            use_type_invariant(self);
        }
        &self.v_var
    }

    /// The variance of the angular velocity noise, 3×1.
    pub fn w_var(&self) -> (tensor: &Tensor)
        ensures
            tensor@ == self@.w_var,
            self@.valid(),
    {
        proof {
            use_type_invariant(self);
        }
        &self.w_var
    }

    /// The variance of the measurement noise, 4×1.
    pub fn y_var(&self) -> (tensor: &Tensor)
        ensures
            tensor@ == self@.y_var,
            self@.valid(),
    {
        proof {
            use_type_invariant(self);
        }
        &self.y_var
    }

    /// The time elapsed before each sample: one axis of length N, the first
    /// element zero.
    pub fn time_steps(&self) -> (tensor: &Tensor)
        ensures
            tensor@ == self@.time_steps,
            self@.valid(),
    {
        proof {
            use_type_invariant(self);
        }
        &self.time_steps
    }

    /// The homogeneous transform with the rotation `c_c_v` as its upper-left
    /// block, the camera position `rho_v_c_v` as its upper-right block and
    /// `0 0 0 1` as its last row, 4×4.
    pub fn vehicle_camera_transform(&self) -> (tensor: &Tensor)
        ensures
            tensor@ == self@.t_c_v,
            self@.valid(),
    {
        proof {
            use_type_invariant(self);
        }
        &self.t_c_v
    }

    /// The horizontal focal length.
    pub fn fu(&self) -> (bits: u64)
        ensures
            bits == self@.fu,
    {
        self.fu
    }

    /// The vertical focal length.
    pub fn fv(&self) -> (bits: u64)
        ensures
            bits == self@.fv,
    {
        self.fv
    }

    /// The horizontal coordinate of the principal point.
    pub fn cu(&self) -> (bits: u64)
        ensures
            bits == self@.cu,
    {
        self.cu
    }

    /// The vertical coordinate of the principal point.
    pub fn cv(&self) -> (bits: u64)
        ensures
            bits == self@.cv,
    {
        self.cv
    }

    /// The stereo baseline.
    pub fn b(&self) -> (bits: u64)
        ensures
            bits == self@.b,
    {
        self.b
    }

    /// The number of landmarks: the `M` of the shape table.
    pub fn num_points(&self) -> (count: usize)
        ensures
            count == self@.rho_i_pj_i.dims[1],
            count > 0,
    {
        proof {
            use_type_invariant(self);
        }
        let dims = self.rho_i_pj_i.shape();
        dims[1]
    }
}

/// A well-formed container assembles to a valid dataset.
pub proof fn lemma_assembled_is_valid<F: Fn(u64, u64) -> u64>(
    fields: Seq<FieldModel>,
    difference: F,
    dataset: DatasetView,
)
    requires
        well_formed(fields),
        assembled(fields, difference, dataset),
    ensures
        dataset.valid(),
{
    let samples = dataset.t.dims[1];
    lemma_two_axes(1, samples, 0, 0);
    lemma_one_axis(samples, 0);
    lemma_two_axes(4, 4, 0, 0);
    assert(dataset.theta_vk_i.dims =~= seq![3usize, samples]);
}

/// No array of a valid dataset is empty.
pub proof fn lemma_valid_is_non_empty(dataset: DatasetView)
    requires
        dataset.valid(),
    ensures
        dataset.rho_v_c_v.elements.len() > 0,
        dataset.rho_i_pj_i.elements.len() > 0,
        dataset.y_k_j.elements.len() > 0,
        dataset.c_c_v.elements.len() > 0,
        dataset.theta_vk_i.elements.len() > 0,
        dataset.r_i_vk_i.elements.len() > 0,
        dataset.t.elements.len() > 0,
        dataset.w_vk_vk_i.elements.len() > 0,
        dataset.v_vk_vk_i.elements.len() > 0,
        dataset.v_var.elements.len() > 0,
        dataset.w_var.elements.len() > 0,
        dataset.y_var.elements.len() > 0,
        dataset.time_steps.elements.len() > 0,
        dataset.t_c_v.elements.len() > 0,
{
    lemma_positive_count(dataset.rho_v_c_v.dims);
    lemma_positive_count(dataset.rho_i_pj_i.dims);
    lemma_positive_count(dataset.y_k_j.dims);
    lemma_positive_count(dataset.c_c_v.dims);
    lemma_positive_count(dataset.theta_vk_i.dims);
    lemma_positive_count(dataset.r_i_vk_i.dims);
    lemma_positive_count(dataset.t.dims);
    lemma_positive_count(dataset.w_vk_vk_i.dims);
    lemma_positive_count(dataset.v_vk_vk_i.dims);
    lemma_positive_count(dataset.v_var.dims);
    lemma_positive_count(dataset.w_var.dims);
    lemma_positive_count(dataset.y_var.dims);
    lemma_positive_count(dataset.time_steps.dims);
    lemma_positive_count(dataset.t_c_v.dims);
}

/// A container that lacks any one of the required fields is not well
/// formed, whatever else it holds.
pub proof fn lemma_missing_field_is_rejected(fields: Seq<FieldModel>, key: int)
    requires
        0 <= key < required_keys().len(),
        forall|i: int| 0 <= i < fields.len() ==> fields[i].name != required_keys()[key],
    ensures
        !well_formed(fields),
{
    lemma_absent_name(fields, required_keys()[key]);
}

/// A container in which any one of the scalar fields is not 1×1 is not well
/// formed.
pub proof fn lemma_scalar_must_be_single(fields: Seq<FieldModel>, key: int)
    requires
        0 <= key < scalar_keys().len(),
        loaded(fields, scalar_keys()[key]) matches Some(found) && !is_single(found.dims),
    ensures
        !well_formed(fields),
{
}

/// Assembly has one result: two datasets assembled from the same fields
/// under the same difference are equal in every bit, provided `difference`
/// gives one result for each pair of arguments.
pub proof fn lemma_assembly_is_unique<F: Fn(u64, u64) -> u64>(
    fields: Seq<FieldModel>,
    difference: F,
    first: DatasetView,
    second: DatasetView,
)
    requires
        assembled(fields, difference, first),
        assembled(fields, difference, second),
        forall|a: u64, b: u64, x: u64, y: u64|
            call_ensures(difference, (a, b), x) && call_ensures(difference, (a, b), y) ==> x == y,
    ensures
        first == second,
{
    lemma_time_deltas_are_unique(
        difference,
        first.t.elements,
        first.time_steps.elements,
        second.time_steps.elements,
    );
}

} // verus!
