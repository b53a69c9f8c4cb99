use vstd::prelude::*;
use crate::error::AppError;
use crate::error::ErrorKind;
use crate::tensor::Tensor;

verus! {

/// A loaded model, as far as the pipeline has to know it: the shape that
/// its graph declares for its input, one entry per axis. A negative entry
/// is an axis that the graph leaves open.
///
/// A value of this type exists only after a load that succeeded; a failed
/// load leaves an error and nothing to run.
#[derive(Clone, Debug, PartialEq, Eq)]
pub struct InferenceSession {
    input_dims: Vec<i64>,
}

impl InferenceSession {
    /// The declared input shape.
    pub closed spec fn spec_input_dims(&self) -> Seq<i64> {
        self.input_dims@
    }

    pub fn input_dims(&self) -> (dims: &Vec<i64>)
        ensures
            dims@ == self.spec_input_dims(),
    {
        &self.input_dims
    }
}

/// One declared axis takes one actual extent: it is open, or the two are equal.
pub open spec fn axis_accepts(declared: i64, actual: usize) -> bool {
    declared < 0 || declared as int == actual as int
}

/// A declared shape takes an actual one: same rank, and every axis accepts.
pub open spec fn shape_accepted(declared: Seq<i64>, actual: Seq<usize>) -> bool {
    &&& declared.len() == actual.len()
    &&& forall|i: int| 0 <= i < declared.len() ==> axis_accepts(#[trigger] declared[i], actual[i])
}

/// What is said where the engine ran and handed back no usable output.
pub open spec fn spec_output_message() -> Seq<char> {
    "the engine returned no output of known shape"@
}

/// The extents of an output, where none of them is negative.
pub open spec fn known_extents(dims: Seq<i64>) -> bool {
    forall|i: int| 0 <= i < dims.len() ==> #[trigger] dims[i] >= 0
}

/// The outputs that an engine may hand back: at least one, each of known shape.
pub open spec fn usable_outputs(shapes: Seq<Vec<i64>>) -> bool {
    &&& shapes.len() > 0
    &&& forall|k: int| 0 <= k < shapes.len() ==> known_extents(#[trigger] shapes[k]@)
}

/// What a load that ended in `loaded` leaves: a session with the declared
/// shape where it succeeded, `ModelLoad` with the engine's words where it
/// failed.
pub open spec fn load_result(
    loaded: Result<Vec<i64>, String>,
    result: Result<InferenceSession, AppError>,
) -> bool {
    match (loaded, result) {
        (Ok(dims), Ok(session)) => session.spec_input_dims() == dims@,
        (Err(words), Err(e)) => e.spec_kind() == ErrorKind::ModelLoad && e.spec_detail() == words@,
        _ => false,
    }
}

/// Turns the outcome of loading a model into a session or an error.
///
/// A load that succeeded gives a session with the shape that the graph
/// declares; a load that failed gives `ModelLoad` with the engine's words,
/// and no session.
pub fn setup_session(loaded: Result<Vec<i64>, String>) -> (result: Result<InferenceSession, AppError>)
    ensures
        load_result(loaded, result),
{
    match loaded {
        Ok(dims) => Ok(InferenceSession { input_dims: dims }),
        Err(words) => Err(AppError::ModelLoad(words)),
    }
}

/// Whether a graph that declares `declared` takes an input of shape `actual`.
pub fn shape_matches(declared: &Vec<i64>, actual: &Vec<usize>) -> (ok: bool)
    ensures
        ok == shape_accepted(declared@, actual@),
{
    if declared.len() != actual.len() {
        return false;
    }
    let mut i: usize = 0;
    while i < declared.len()
        invariant
            i <= declared.len(),
            declared.len() == actual.len(),
            forall|j: int| 0 <= j < i ==> axis_accepts(#[trigger] declared@[j], actual@[j]),
        decreases declared.len() - i,
    {
        let d: i64 = declared[i];
        if d >= 0 && d as u64 != actual[i] as u64 {
            assert(!axis_accepts(declared@[i as int], actual@[i as int]));
            return false;
        }
        i += 1;
    }
    true
}

/// Decides whether the engine is to be run on `input_tensor`.
///
/// Where the graph takes the tensor's shape, the answer is that shape, with
/// which the engine is then called; where it does not, the answer is
/// `ShapeMismatch`, and the engine is not called at all.
pub fn run_inference(session: &InferenceSession, input_tensor: &Tensor) -> (result: Result<
    Vec<usize>,
    AppError,
>)
    ensures
        result is Ok <==> shape_accepted(session.spec_input_dims(), input_tensor.spec_shape()),
        match result {
            Ok(shape) => shape@ == input_tensor.spec_shape(),
            Err(e) => e == AppError::ShapeMismatch,
        },
{
    let shape = input_tensor.shape();
    if shape_matches(session.input_dims(), &shape) {
        Ok(shape)
    } else {
        Err(AppError::ShapeMismatch)
    }
}

/// Whether every extent of an output is known.
pub fn extents_known(dims: &Vec<i64>) -> (ok: bool)
    ensures
        ok == known_extents(dims@),
{
    let mut i: usize = 0;
    while i < dims.len()
        invariant
            i <= dims.len(),
            forall|j: int| 0 <= j < i ==> #[trigger] dims@[j] >= 0,
        decreases dims.len() - i,
    {
        if dims[i] < 0 {
            return false;
        }
        i += 1;
    }
    true
}

/// Turns what the engine handed back into the result of the call.
///
/// A failure of the engine becomes `Inference` with the engine's words. A
/// run that gave no output, or an output with a negative extent, becomes
/// `Inference` too. Otherwise the shapes come back as they are, one per
/// output of the graph and in the graph's order.
pub fn finish_inference(outcome: Result<Vec<Vec<i64>>, String>) -> (result: Result<
    Vec<Vec<i64>>,
    AppError,
>)
    ensures
        match outcome {
            Ok(shapes) => if usable_outputs(shapes@) {
                result is Ok && result->Ok_0 == shapes
            } else {
                result is Err && result->Err_0.spec_kind() == ErrorKind::Inference
                    && result->Err_0.spec_detail() == spec_output_message()
            },
            Err(words) => result is Err && result->Err_0.spec_kind() == ErrorKind::Inference
                && result->Err_0.spec_detail() == words@,
        },
{
    match outcome {
        Ok(shapes) => {
            if shapes.len() == 0 {
                return Err(
                    AppError::Inference("the engine returned no output of known shape".to_string()),
                );
            }
            let mut k: usize = 0;
            while k < shapes.len()
                invariant
                    k <= shapes.len(),
                    outcome == Ok::<Vec<Vec<i64>>, String>(shapes),
                    forall|j: int| 0 <= j < k ==> known_extents(#[trigger] shapes@[j]@),
                decreases shapes.len() - k,
            {
                if !extents_known(&shapes[k]) {
                    assert(!known_extents(shapes@[k as int]@));
                    return Err(
                        AppError::Inference(
                            "the engine returned no output of known shape".to_string(),
                        ),
                    );
                }
                k += 1;
            }
            Ok(shapes)
        },
        Err(words) => Err(AppError::Inference(words)),
    }
}

/// A load that failed leaves no session: whatever the engine said, the
/// result is an error of the kind `ModelLoad`, never a session.
pub proof fn failed_load_leaves_no_session(
    loaded: Result<Vec<i64>, String>,
    result: Result<InferenceSession, AppError>,
)
    requires
        loaded is Err,
        load_result(loaded, result),
    ensures
        result is Err,
        result->Err_0.spec_kind() == ErrorKind::ModelLoad,
{
}

/// A graph that fixes an axis refuses every tensor whose extent on that
/// axis is another one.
pub proof fn fixed_axis_refuses_other_extent(declared: Seq<i64>, actual: Seq<usize>, axis: int)
    requires
        0 <= axis < declared.len(),
        declared.len() == actual.len(),
        declared[axis] >= 0,
        declared[axis] as int != actual[axis] as int,
    ensures
        !shape_accepted(declared, actual),
{
    assert(!axis_accepts(declared[axis], actual[axis]));
}

/// A graph that declares another rank than four refuses every image tensor.
pub proof fn other_rank_refuses(declared: Seq<i64>, tensor: &Tensor)
    requires
        tensor.well_formed(),
        declared.len() != 4,
    ensures
        !shape_accepted(declared, tensor.spec_shape()),
{
}

} // verus!
