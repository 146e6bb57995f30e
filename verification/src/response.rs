//! Reading the embedding out of a provider's response: a fixed path of member
//! names and array places leads to an array of numbers. Where a step cannot
//! be taken, the error names the path up to and including that step.

use crate::errors::{ProviderError, ProviderErrorKind, ProviderErrorView};
use crate::json::{items_view, Json, JsonView};
use crate::text::{decimal, decimal_text};
use vstd::prelude::*;
use vstd::string::*;

verus! {

/// One step of a path into a response.
#[derive(Clone, Copy, Debug)]
pub enum Step {
    /// Into the member of this name; absent where the value is no object or
    /// has no such member.
    Key(&'static str),
    /// Onto the item at this place; absent where the value is no array or is
    /// too short.
    Index(usize),
    /// Onto the first item of what must be an array; absent where the array is
    /// empty.
    First,
}

/// How a step is written in a path.
pub open spec fn label(step: Step) -> Seq<char> {
    match step {
        Step::Key(name) => name@,
        Step::Index(i) => decimal(i as nat),
        Step::First => decimal(0),
    }
}

/// The first `n` steps of a path, written with dots between them.
pub open spec fn dotted(path: Seq<Step>, n: int) -> Seq<char>
    decreases n,
{
    if n <= 0 {
        Seq::empty()
    } else if n == 1 {
        label(path[0])
    } else {
        dotted(path, n - 1) + "."@ + label(path[n - 1])
    }
}

/// The value that a step leads to, if there is one.
pub open spec fn step_into(value: JsonView, step: Step) -> Option<JsonView> {
    match step {
        Step::Key(name) => value.member(name@),
        Step::Index(i) => value.item(i as int),
        Step::First => value.item(0),
    }
}

/// The error for step `k` of a path that cannot be taken from `value`.
pub open spec fn step_failure(value: JsonView, path: Seq<Step>, k: int) -> ProviderErrorView {
    if path[k] is First && !(value is Array) {
        ProviderErrorView { kind: ProviderErrorKind::NotAnArray, detail: dotted(path, k) }
    } else if k == 0 {
        ProviderErrorView { kind: ProviderErrorKind::MissingKey, detail: dotted(path, 1) }
    } else {
        ProviderErrorView { kind: ProviderErrorKind::MissingPath, detail: dotted(path, k + 1) }
    }
}

/// The value reached from `body` by the first `n` steps of a path; none where
/// one of them cannot be taken.
pub open spec fn reached(body: JsonView, path: Seq<Step>, n: int) -> Option<JsonView>
    decreases n,
{
    if n <= 0 {
        Some(body)
    } else {
        match reached(body, path, n - 1) {
            Some(value) => step_into(value, path[n - 1]),
            None => None,
        }
    }
}

/// Whether every item is a number.
pub open spec fn all_numbers(items: Seq<JsonView>) -> bool {
    forall|i: int| 0 <= i < items.len() ==> (#[trigger] items[i]).float_bits() is Some
}

/// The values of the items as bits of 64-bit floats.
pub open spec fn bits_of(items: Seq<JsonView>) -> Seq<u64> {
    Seq::new(items.len(), |i: int| items[i].float_bits().unwrap())
}

/// The vector that stands at the end of a path, as `value`: its numbers, or
/// the error that names the path.
pub open spec fn vector_of(value: JsonView, path: Seq<Step>) -> Result<
    Seq<u64>,
    ProviderErrorView,
> {
    match value.items() {
        None => Err(
            ProviderErrorView {
                kind: ProviderErrorKind::NotAnArray,
                detail: dotted(path, path.len() as int),
            },
        ),
        Some(items) => if all_numbers(items) {
            Ok(bits_of(items))
        } else {
            Err(
                ProviderErrorView {
                    kind: ProviderErrorKind::NotANumber,
                    detail: dotted(path, path.len() as int),
                },
            )
        },
    }
}

/// What is read from `value`, reached by the first `k` steps, along the rest
/// of the path.
pub open spec fn read_from(value: JsonView, path: Seq<Step>, k: int) -> Result<
    Seq<u64>,
    ProviderErrorView,
>
    decreases path.len() - k,
{
    if k < 0 || k >= path.len() {
        vector_of(value, path)
    } else {
        match step_into(value, path[k]) {
            Some(next) => read_from(next, path, k + 1),
            None => Err(step_failure(value, path, k)),
        }
    }
}

/// What is read from a response body along a path: the numbers of the array at
/// its end, each as the bits of a 64-bit float, or the error of the first step
/// that cannot be taken, or of what stands at the end.
pub open spec fn vector_read(body: JsonView, path: Seq<Step>) -> Result<
    Seq<u64>,
    ProviderErrorView,
> {
    read_from(body, path, 0)
}

/// Reading from the body is reading from any value reached along the path,
/// along the rest of the path.
pub proof fn lemma_read_resumes(body: JsonView, path: Seq<Step>, k: int)
    requires
        0 <= k <= path.len(),
        reached(body, path, k) is Some,
    ensures
        vector_read(body, path) == read_from(reached(body, path, k).unwrap(), path, k),
    decreases k,
{
    if k > 0 {
        lemma_read_resumes(body, path, k - 1);
    }
}

/// A body in which the path leads to an array of numbers is read as exactly
/// those numbers, in their order, each as the bits of its 64-bit float.
pub proof fn lemma_well_formed_body_is_read(body: JsonView, path: Seq<Step>, items: Seq<JsonView>)
    requires
        reached(body, path, path.len() as int) == Some(JsonView::Array(items)),
        all_numbers(items),
    ensures
        vector_read(body, path) == Ok::<Seq<u64>, ProviderErrorView>(bits_of(items)),
        bits_of(items).len() == items.len(),
        forall|i: int|
            0 <= i < items.len() ==> (#[trigger] items[i]).float_bits() == Some(bits_of(items)[i]),
{
    lemma_read_resumes(body, path, path.len() as int);
}

/// Where the path can be followed for `k` steps and the member or item of the
/// next step is missing, reading fails with the error that names the path
/// through that step: a missing key for the first step, a missing path for a
/// later one.
pub proof fn lemma_missing_step_is_named(body: JsonView, path: Seq<Step>, k: int)
    requires
        0 <= k < path.len(),
        reached(body, path, k) is Some,
        reached(body, path, k + 1) is None,
        !(path[k] is First) || reached(body, path, k).unwrap() is Array,
    ensures
        vector_read(body, path) == Err::<Seq<u64>, ProviderErrorView>(
            ProviderErrorView {
                kind: if k == 0 {
                    ProviderErrorKind::MissingKey
                } else {
                    ProviderErrorKind::MissingPath
                },
                detail: dotted(path, k + 1),
            },
        ),
{
    lemma_read_resumes(body, path, k);
}

/// The mathematical form of what was read.
pub open spec fn read_view(r: Result<Vec<u64>, ProviderError>) -> Result<
    Seq<u64>,
    ProviderErrorView,
> {
    match r {
        Ok(vector) => Ok(vector@),
        Err(error) => Err(error@),
    }
}

/// Writes the first `n` steps of a path with dots between them.
pub fn path_text(path: &Vec<Step>, n: usize) -> (r: String)
    requires
        n <= path@.len(),
    ensures
        r@ == dotted(path@, n as int),
{
    let mut out = String::new();
    let mut i: usize = 0;
    while i < n
        invariant
            i <= n <= path@.len(),
            out@ == dotted(path@, i as int),
        decreases n - i,
    {
        if i > 0 {
            out.append(".");
        }
        match path[i] {
            Step::Key(name) => out.append(name),
            Step::Index(place) => {
                let digits = decimal_text(place);
                out.append(digits.as_str());
            },
            Step::First => {
                let digits = decimal_text(0);
                out.append(digits.as_str());
            },
        }
        proof {
            if i == 0 {
                assert(out@ =~= label(path@[0]));
            }
        }
        i += 1;
    }
    out
}

/// The values of the items of an array as bits of 64-bit floats; none where
/// an item is no number.
pub fn numbers(items: &Vec<Json>) -> (r: Option<Vec<u64>>)
    ensures
        match r {
            Some(vector) => all_numbers(items_view(items@)) && vector@ == bits_of(
                items_view(items@),
            ),
            None => !all_numbers(items_view(items@)),
        },
{
    let mut out: Vec<u64> = Vec::new();
    let mut i: usize = 0;
    let ghost all = items_view(items@);
    while i < items.len()
        invariant
            i <= items@.len(),
            all == items_view(items@),
            out@.len() == i,
            forall|j: int| 0 <= j < i ==> (#[trigger] all[j]).float_bits() == Some(out@[j]),
        decreases items@.len() - i,
    {
        assert(all[i as int] == items@[i as int]@);
        match items[i].float_bits() {
            Some(bits) => out.push(bits),
            None => {
                return None;
            },
        }
        i += 1;
    }
    assert(out@ =~= bits_of(all));
    Some(out)
}

/// Reads the embedding from a response body along a path.
pub fn read_vector(body: &Json, path: &Vec<Step>) -> (r: Result<Vec<u64>, ProviderError>)
    ensures
        read_view(r) == vector_read(body@, path@),
{
    let mut current = body;
    let mut k: usize = 0;
    while k < path.len()
        invariant
            k <= path@.len(),
            vector_read(body@, path@) == read_from(current@, path@, k as int),
        decreases path@.len() - k,
    {
        let next = match path[k] {
            Step::Key(name) => current.get(name),
            Step::Index(place) => current.at(place),
            Step::First => {
                if current.as_array().is_none() {
                    let detail = path_text(path, k);
                    return Err(ProviderError { kind: ProviderErrorKind::NotAnArray, detail });
                }
                current.at(0)
            },
        };
        match next {
            Some(value) => {
                current = value;
            },
            None => {
                if k == 0 {
                    let detail = path_text(path, 1);
                    return Err(ProviderError { kind: ProviderErrorKind::MissingKey, detail });
                } else {
                    let detail = path_text(path, k + 1);
                    return Err(ProviderError { kind: ProviderErrorKind::MissingPath, detail });
                }
            },
        }
        k += 1;
    }
    match current.as_array() {
        None => {
            let detail = path_text(path, path.len());
            Err(ProviderError { kind: ProviderErrorKind::NotAnArray, detail })
        },
        Some(items) => match numbers(items) {
            Some(vector) => Ok(vector),
            None => {
                let detail = path_text(path, path.len());
                Err(ProviderError { kind: ProviderErrorKind::NotANumber, detail })
            },
        },
    }
}

} // verus!
