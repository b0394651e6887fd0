use vstd::prelude::*;

verus! {

/// Why a batch cannot be evaluated.
#[derive(Clone, Copy, Debug, PartialEq, Eq, Structural)]
pub enum EvalError {
    /// The batch holds no sample.
    EmptyBatch,
    /// Batch sizes disagree, a label lies outside the class range, or the
    /// logits do not have one row per sample and one column per class.
    ShapeMismatch,
    /// The inputs and the model live on different devices.
    DeviceMismatch,
}

/// Dimensions of a batch of inputs: samples, then the two spatial sizes.
#[derive(Clone, Copy, Debug, PartialEq, Eq, Structural)]
pub struct BatchShape {
    pub samples: usize,
    pub height: usize,
    pub width: usize,
}

/// Dimensions of the logits of a batch: one row per sample, one column per
/// class.
#[derive(Clone, Copy, Debug, PartialEq, Eq, Structural)]
pub struct OutputShape {
    pub samples: usize,
    pub classes: usize,
}

/// Every label names one of `num_classes` classes.
pub open spec fn labels_in_range(targets: Seq<i64>, num_classes: int) -> bool {
    forall|i: int| 0 <= i < targets.len() ==> 0 <= #[trigger] targets[i] < num_classes
}

/// The outcome of checking a batch before the forward pass.
pub open spec fn batch_check_spec(
    inputs: BatchShape,
    targets: Seq<i64>,
    num_classes: int,
    same_device: bool,
) -> Result<(), EvalError> {
    if inputs.samples != targets.len() {
        Err(EvalError::ShapeMismatch)
    } else if inputs.samples == 0 {
        Err(EvalError::EmptyBatch)
    } else if !labels_in_range(targets, num_classes) {
        Err(EvalError::ShapeMismatch)
    } else if !same_device {
        Err(EvalError::DeviceMismatch)
    } else {
        Ok(())
    }
}

/// Checks a batch before the model runs on it: one label per sample, at
/// least one sample, every label a valid class, and inputs on the model's
/// device.
pub fn check_batch(inputs: BatchShape, targets: &Vec<i64>, num_classes: usize, same_device: bool) -> (r:
    Result<(), EvalError>)
    ensures
        r == batch_check_spec(inputs, targets@, num_classes as int, same_device),
{
    if inputs.samples != targets.len() {
        return Err(EvalError::ShapeMismatch);
    }
    if inputs.samples == 0 {
        return Err(EvalError::EmptyBatch);
    }
    let mut i: usize = 0;
    while i < targets.len()
        invariant
            i <= targets@.len(),
            labels_in_range(targets@.take(i as int), num_classes as int),
        decreases targets@.len() - i,
    {
        let t: i64 = targets[i];
        if t < 0 || t as u128 >= num_classes as u128 {
            assert(!labels_in_range(targets@, num_classes as int)) by {
                assert(targets@[i as int] == t);
            }
            return Err(EvalError::ShapeMismatch);
        }
        assert(targets@.take(i as int + 1) == targets@.take(i as int).push(t));
        i = i + 1;
    }
    assert(targets@.take(i as int) == targets@);
    if !same_device {
        return Err(EvalError::DeviceMismatch);
    }
    Ok(())
}

/// Checks the logits that the model produced for a batch of `inputs` and
/// hands back their shape: it has one row per sample of the batch and one
/// column per class, or the result is `ShapeMismatch`.
pub fn check_output(inputs: BatchShape, logits: OutputShape, num_classes: usize) -> (r: Result<
    OutputShape,
    EvalError,
>)
    ensures
        r is Ok <==> (logits.samples == inputs.samples && logits.classes == num_classes),
        r is Ok ==> r->Ok_0 == logits && r->Ok_0.samples == inputs.samples,
        r is Err ==> r->Err_0 == EvalError::ShapeMismatch,
{
    if logits.samples != inputs.samples || logits.classes != num_classes {
        Err(EvalError::ShapeMismatch)
    } else {
        Ok(logits)
    }
}

} // verus!
