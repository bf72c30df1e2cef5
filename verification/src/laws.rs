//! What holds of every resolution, whatever the record and whatever the store.
//!
//! The laws speak of a resolution by the answers it received: [`resolve`] ends with the
//! [`outcome`] of such answers, and so does any caller that drives [`begin`] and
//! [`Pending::supply`] itself.
//!
//! [`resolve`]: crate::resolver::resolve
//! [`begin`]: crate::resolver::begin
//! [`Pending::supply`]: crate::resolver::Pending::supply

use vstd::prelude::*;
use crate::error::ResolutionErrorView;
use crate::error::StoreError;
use crate::error::StoreErrorView;
use crate::key_transform::kebab;
use crate::resolver::fail_fast;
use crate::resolver::first_step;
use crate::resolver::is_trace;
use crate::resolver::next_step;
use crate::resolver::outcome;
use crate::resolver::queries;
use crate::resolver::values_of;
use crate::resolver::answered_by;
use crate::resolver::answers;
use crate::resolver::reply_views;
use crate::resolver::Outcome;
use crate::resolver::StepView;
use crate::shape::TargetShapeView;
use crate::store::reply_view;
use crate::store::ConfigStore;
use crate::store::Reply;

verus! {

/// What a store with the contents `contents` answers to a request for `key`.
pub open spec fn lookup(contents: Map<Seq<char>, Seq<char>>, key: Seq<char>) -> Reply {
    if contents.contains_key(key) {
        Ok(contents[key])
    } else {
        Err(StoreErrorView::KeyNotFound { key })
    }
}

/// Every answer in `trace` is what a store with the contents `contents` answers to the request
/// for the key of that field.
pub open spec fn read_from(
    contents: Map<Seq<char>, Seq<char>>,
    shape: TargetShapeView,
    trace: Seq<Reply>,
) -> bool {
    forall|i: int|
        0 <= i < trace.len() ==> #[trigger] trace[i] == lookup(contents, kebab(shape.fields()[i]))
}

/// `store` answers every request as a store with the contents `contents` does.
pub open spec fn answers_from<S: ConfigStore>(
    store: &S,
    contents: Map<Seq<char>, Seq<char>>,
) -> bool {
    forall|key: &str, reply: Result<String, StoreError>| #[trigger]
        call_ensures(S::get_parameter, (store, key), reply) ==> reply_view(reply) == lookup(
            contents,
            key@,
        )
}

/// The keys of the first `count` fields, in declaration order.
pub open spec fn leading_keys(shape: TargetShapeView, count: int) -> Seq<Seq<char>> {
    Seq::new(count as nat, |i: int| kebab(shape.fields()[i]))
}

/// The answers that a resolution receives from a store that answers from `contents` are read
/// from `contents`: the laws on contents hold of what [`resolve`] returns for such a store.
///
/// [`resolve`]: crate::resolver::resolve
pub proof fn law_answers_are_read_from_contents<S: ConfigStore>(
    store: &S,
    contents: Map<Seq<char>, Seq<char>>,
    shape: TargetShapeView,
    replies: Seq<Result<String, StoreError>>,
)
    requires
        answers_from(store, contents),
        answered_by(store, shape, replies),
    ensures
        read_from(contents, shape, reply_views(replies)),
{
    let trace = reply_views(replies);
    assert forall|i: int| 0 <= i < trace.len() implies #[trigger] trace[i] == lookup(
        contents,
        kebab(shape.fields()[i]),
    ) by {
        assert(answers(store, kebab(shape.fields()[i]), replies[i]));
    }
}

/// Where every key is present, a resolution returns the store's values at the keys of the
/// fields, in declaration order, and has asked for the key of every field.
pub proof fn law_all_keys_present(
    shape: TargetShapeView,
    contents: Map<Seq<char>, Seq<char>>,
    trace: Seq<Reply>,
    result: Outcome,
)
    requires
        shape.supported(),
        read_from(contents, shape, trace),
        outcome(shape, trace) == Some(result),
        forall|i: int|
            0 <= i < shape.fields().len() ==> contents.contains_key(
                kebab(#[trigger] shape.fields()[i]),
            ),
    ensures
        result == Outcome::Ok(
            Seq::new(shape.fields().len(), |i: int| contents[kebab(shape.fields()[i])]),
        ),
        queries(shape, trace) == leading_keys(shape, shape.fields().len() as int),
{
    let fields = shape.fields();
    assert forall|i: int| 0 <= i < trace.len() implies (#[trigger] trace[i]) is Ok by {
        assert(contents.contains_key(kebab(fields[i])));
    }
    assert(trace.len() == fields.len());
    assert(values_of(trace) =~= Seq::new(fields.len(), |i: int| contents[kebab(fields[i])]));
    assert(queries(shape, trace) =~= leading_keys(shape, fields.len() as int));
}

/// Where a key is absent, a resolution fails for the first field, in declaration order, whose
/// key is absent, and names that field and that key. It has asked for the keys of the fields up
/// to that one, in order, and for no key of a field declared after it.
pub proof fn law_first_missing_key(
    shape: TargetShapeView,
    contents: Map<Seq<char>, Seq<char>>,
    trace: Seq<Reply>,
    result: Outcome,
    missing: int,
)
    requires
        shape.supported(),
        read_from(contents, shape, trace),
        outcome(shape, trace) == Some(result),
        0 <= missing < shape.fields().len(),
        !contents.contains_key(kebab(shape.fields()[missing])),
        forall|i: int|
            0 <= i < missing ==> contents.contains_key(kebab(#[trigger] shape.fields()[i])),
    ensures
        result == Outcome::Err(
            ResolutionErrorView::FieldResolutionFailed {
                field_name: shape.fields()[missing],
                cause: StoreErrorView::KeyNotFound { key: kebab(shape.fields()[missing]) },
            },
        ),
        queries(shape, trace) == leading_keys(shape, missing + 1),
{
    let fields = shape.fields();
    if trace.len() <= missing {
        assert forall|i: int| 0 <= i < trace.len() implies (#[trigger] trace[i]) is Ok by {
            assert(contents.contains_key(kebab(fields[i])));
        }
        assert(false);
    }
    assert(trace[missing] is Err);
    assert(trace.len() == missing + 1);
    assert(queries(shape, trace) =~= leading_keys(shape, missing + 1));
}

/// Where the store cannot be reached at one request, the resolution fails with that failure
/// for the field whose key was asked for. The fields before it were asked for once each, in
/// order, and no field after it was asked for.
pub proof fn law_store_unavailable(
    shape: TargetShapeView,
    trace: Seq<Reply>,
    result: Outcome,
    at: int,
    detail: Seq<char>,
)
    requires
        shape.supported(),
        outcome(shape, trace) == Some(result),
        0 <= at < trace.len(),
        trace[at] == Reply::Err(StoreErrorView::StoreUnavailable { detail }),
    ensures
        result == Outcome::Err(
            ResolutionErrorView::FieldResolutionFailed {
                field_name: shape.fields()[at],
                cause: StoreErrorView::StoreUnavailable { detail },
            },
        ),
        queries(shape, trace) == leading_keys(shape, at + 1),
        queries(shape, trace).no_duplicates(),
{
    assert(trace.len() == at + 1);
    assert(queries(shape, trace) =~= leading_keys(shape, at + 1));
    law_each_key_asked_once(shape, trace);
}

/// A resolution asks for the keys of the leading fields, in declaration order, and for none of
/// them twice; an answer without a value is the last it receives.
pub proof fn law_each_key_asked_once(shape: TargetShapeView, trace: Seq<Reply>)
    requires
        is_trace(shape, trace),
    ensures
        queries(shape, trace) == leading_keys(shape, trace.len() as int),
        queries(shape, trace).no_duplicates(),
        trace.len() <= shape.fields().len(),
        forall|i: int| 0 <= i < trace.len() && (#[trigger] trace[i]) is Err ==> i == trace.len() - 1,
{
    let asked = queries(shape, trace);
    assert(asked =~= leading_keys(shape, trace.len() as int));
    assert forall|i: int, j: int| 0 <= i < asked.len() && 0 <= j < asked.len() && i != j implies asked[i]
        != asked[j] by {
        let fields = shape.fields();
        if i < j {
            assert(kebab(fields[i]) != kebab(fields[j]));
        } else {
            assert(kebab(fields[j]) != kebab(fields[i]));
        }
    }
}

/// A shape that is not supported is refused, and only such a shape is; nothing is asked for it.
/// A resolution that succeeds has one value for each field.
pub proof fn law_unsupported_shape_is_refused(shape: TargetShapeView, trace: Seq<Reply>, result: Outcome)
    requires
        outcome(shape, trace) == Some(result),
    ensures
        result == Outcome::Err(ResolutionErrorView::UnsupportedShape) <==> !shape.supported(),
        !shape.supported() ==> trace.len() == 0,
        result is Ok ==> result->Ok_0.len() == shape.fields().len(),
{
}

/// Driving a resolution step by step comes to the outcome of the answers handed in: before any
/// answer it stands at [`first_step`], and each answer moves it by [`next_step`].
pub proof fn law_steps_follow_answers(shape: TargetShapeView, trace: Seq<Reply>, reply: Reply)
    requires
        shape.supported(),
        is_trace(shape, trace),
        trace.len() < shape.fields().len(),
        trace.len() > 0 ==> trace.last() is Ok,
    ensures
        trace.len() == 0 ==> first_step(shape) == (StepView::Ask {
            fields: shape.fields(),
            values: values_of(trace),
        }),
        is_trace(shape, trace.push(reply)),
        match next_step(shape.fields(), values_of(trace), reply) {
            StepView::Ask { fields, values } => {
                &&& fields == shape.fields()
                &&& values == values_of(trace.push(reply))
                &&& outcome(shape, trace.push(reply)) is None
                &&& reply is Ok
            },
            StepView::Done(values) => outcome(shape, trace.push(reply)) == Some(
                Outcome::Ok(values),
            ),
            StepView::Failed(error) => outcome(shape, trace.push(reply)) == Some(
                Outcome::Err(error),
            ),
        },
{
    let longer = trace.push(reply);
    if trace.len() == 0 {
        assert(values_of(trace) =~= Seq::<Seq<char>>::empty());
    }
    assert(fail_fast(longer)) by {
        assert forall|i: int| 0 <= i < longer.len() - 1 implies (#[trigger] longer[i]) is Ok by {
            if i < trace.len() - 1 {
                assert(trace[i] is Ok);
            } else {
                assert(longer[i] == trace.last());
            }
        }
    }
    assert(longer.last() == reply);
    if reply is Ok {
        assert(values_of(longer) =~= values_of(trace).push(reply->Ok_0));
    }
}

} // verus!
