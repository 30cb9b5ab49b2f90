//! The shape of an embedding: one optional element per output dimension.

use crate::errors::InferenceError;
use vstd::prelude::*;

verus! {

/// The reply to one embedding request. An empty `values` means that no
/// embedding is available; it never stands for an embedding of length zero.
#[derive(Debug)]
pub struct Embedding<T> {
    /// One element per output dimension, each marked present.
    pub values: Vec<Option<T>>,
    /// What went wrong, where `values` is empty.
    pub diagnostic: Option<InferenceError>,
}

/// A row with every element marked present.
pub open spec fn all_present<T>(row: Seq<T>) -> Seq<Option<T>> {
    Seq::new(row.len(), |i: int| Some(row[i]))
}

/// The elements of the reply to an inference outcome: the first row with
/// every element present; nothing after an error or where no row came back.
pub open spec fn reply_values<T>(outcome: Result<Vec<Vec<T>>, InferenceError>) -> Seq<Option<T>> {
    match outcome {
        Ok(rows) => if rows@.len() > 0 {
            all_present(rows@[0]@)
        } else {
            Seq::empty()
        },
        Err(_) => Seq::empty(),
    }
}

/// The diagnostic of the reply to an inference outcome.
pub open spec fn reply_diagnostic<T>(outcome: Result<Vec<Vec<T>>, InferenceError>) -> Option<
    InferenceError,
> {
    match outcome {
        Ok(rows) => if rows@.len() > 0 {
            None
        } else {
            Some(InferenceError::ForwardPass)
        },
        Err(e) => Some(e),
    }
}

/// Marks every element of a row present.
pub fn present_row<T: Copy>(row: &Vec<T>) -> (values: Vec<Option<T>>)
    ensures
        values@ == all_present(row@),
{
    let mut values: Vec<Option<T>> = Vec::new();
    let mut i: usize = 0;
    while i < row.len()
        invariant
            i <= row@.len(),
            values@ == all_present(row@.take(i as int)),
        decreases row@.len() - i,
    {
        values.push(Some(row[i]));
        i += 1;
        assert(values@ == all_present(row@.take(i as int)));
    }
    assert(row@.take(i as int) == row@);
    values
}

/// Turns the outcome of inference on a batch of one text into the reply. The
/// first row becomes the embedding, every element present. An error, or a
/// batch without rows, gives no element at all and a diagnostic.
pub fn embedding_reply<T: Copy>(outcome: &Result<Vec<Vec<T>>, InferenceError>) -> (reply: Embedding<
    T,
>)
    ensures
        reply.values@ == reply_values(*outcome),
        reply.diagnostic == reply_diagnostic(*outcome),
{
    match outcome {
        Ok(rows) => {
            if rows.len() > 0 {
                Embedding { values: present_row(&rows[0]), diagnostic: None }
            } else {
                Embedding { values: Vec::new(), diagnostic: Some(InferenceError::ForwardPass) }
            }
        },
        Err(e) => Embedding { values: Vec::new(), diagnostic: Some(*e) },
    }
}

/// A reply holds elements only where inference succeeded, and then every
/// element of the row is present.
pub proof fn reply_is_whole_or_empty<T>(outcome: Result<Vec<Vec<T>>, InferenceError>)
    ensures
        reply_diagnostic(outcome) is Some ==> reply_values(outcome).len() == 0,
        forall|i: int|
            0 <= i < reply_values(outcome).len() ==> (#[trigger] reply_values(outcome)[i]) is Some,
{
}

} // verus!
