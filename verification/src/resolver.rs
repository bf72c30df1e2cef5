//! The structural resolver: asks the store for each field of a record, in declaration order,
//! and stops at the first field for which the store has no value.

use vstd::prelude::*;
use crate::error::ResolutionError;
use crate::error::ResolutionErrorView;
use crate::error::StoreError;
use crate::key_transform::kebab;
use crate::key_transform::snake_case_to_kebab_case;
use crate::shape::names;
use crate::shape::TargetShape;
use crate::shape::TargetShapeView;
use crate::store::reply_view;
use crate::store::ConfigStore;
use crate::store::Reply;

verus! {

/// What a resolution has come to.
pub type Outcome = Result<Seq<Seq<char>>, ResolutionErrorView>;

/// The answers as contracts speak of them.
pub open spec fn reply_views(replies: Seq<Result<String, StoreError>>) -> Seq<Reply> {
    Seq::new(replies.len(), |i: int| reply_view(replies[i]))
}

/// The values that the answers carry, in the order of the answers.
pub open spec fn values_of(trace: Seq<Reply>) -> Seq<Seq<char>> {
    Seq::new(trace.len(), |i: int| trace[i]->Ok_0)
}

/// Every answer but the last carries a value: nothing is asked after a failure.
pub open spec fn fail_fast(trace: Seq<Reply>) -> bool {
    forall|i: int| 0 <= i < trace.len() - 1 ==> (#[trigger] trace[i]) is Ok
}

/// `trace` can be the answers that one resolution of `shape` received, in the order it asked:
/// `trace[i]` answers the request for the key of field `i`. An unsupported shape is never
/// asked for.
pub open spec fn is_trace(shape: TargetShapeView, trace: Seq<Reply>) -> bool {
    if shape.supported() {
        trace.len() <= shape.fields().len() && fail_fast(trace)
    } else {
        trace.len() == 0
    }
}

/// The keys that a resolution with these answers asked for, in the order it asked.
pub open spec fn queries(shape: TargetShapeView, trace: Seq<Reply>) -> Seq<Seq<char>> {
    Seq::new(trace.len(), |i: int| kebab(shape.fields()[i]))
}

/// What a resolution of `shape` that received the answers `trace` has come to, if it is at an
/// end: an unsupported shape is refused; a failing answer fails the resolution for the field
/// it was asked for; with a value for every field, the values are the result. `None` while
/// there is a field left to ask for, and for answers that no resolution can have received.
pub open spec fn outcome(shape: TargetShapeView, trace: Seq<Reply>) -> Option<Outcome> {
    if !is_trace(shape, trace) {
        None
    } else if !shape.supported() {
        Some(Err(ResolutionErrorView::UnsupportedShape))
    } else if trace.len() > 0 && trace.last() is Err {
        Some(
            Err(
                ResolutionErrorView::FieldResolutionFailed {
                    field_name: shape.fields()[trace.len() - 1],
                    cause: trace.last()->Err_0,
                },
            ),
        )
    } else if trace.len() == shape.fields().len() {
        Some(Ok(values_of(trace)))
    } else {
        None
    }
}

/// A resolution's result as contracts speak of it.
pub open spec fn outcome_view(result: Result<Vec<String>, ResolutionError>) -> Outcome {
    match result {
        Ok(values) => Ok(names(values@)),
        Err(error) => Err(error@),
    }
}

/// A resolution that waits for the answer to one request.
///
/// It holds the values of the fields before the one it asks for, and there is always such a
/// field: a resolution with nothing left to ask is no `Pending` but a result.
pub struct Pending<'a> {
    fields: &'a Vec<String>,
    values: Vec<String>,
}

/// Where a resolution stands.
pub enum Step<'a> {
    /// The store is to be asked for [`Pending::key`], and the answer handed to
    /// [`Pending::supply`].
    Ask(Pending<'a>),
    /// Every field has its value; the values stand in declaration order.
    Done(Vec<String>),
    /// No record: the shape is not supported, or the store had no value for a field.
    Failed(ResolutionError),
}

/// A [`Step`] as contracts speak of it.
pub enum StepView {
    Ask { fields: Seq<Seq<char>>, values: Seq<Seq<char>> },
    Done(Seq<Seq<char>>),
    Failed(ResolutionErrorView),
}

/// Where a resolution of `shape` stands before anything is asked.
pub open spec fn first_step(shape: TargetShapeView) -> StepView {
    if !shape.supported() {
        StepView::Failed(ResolutionErrorView::UnsupportedShape)
    } else if shape.fields().len() == 0 {
        StepView::Done(Seq::empty())
    } else {
        StepView::Ask { fields: shape.fields(), values: Seq::empty() }
    }
}

/// Where a resolution stands after the answer `reply` to its request for the field that
/// follows `values`.
pub open spec fn next_step(
    fields: Seq<Seq<char>>,
    values: Seq<Seq<char>>,
    reply: Reply,
) -> StepView {
    match reply {
        Err(cause) => StepView::Failed(
            ResolutionErrorView::FieldResolutionFailed {
                field_name: fields[values.len() as int],
                cause,
            },
        ),
        Ok(value) => if values.len() + 1 == fields.len() {
            StepView::Done(values.push(value))
        } else {
            StepView::Ask { fields, values: values.push(value) }
        },
    }
}

impl<'a> Pending<'a> {
    #[verifier::type_invariant]
    spec fn well_formed(self) -> bool {
        self.values.len() < self.fields.len()
    }

    /// The record's field names, in declaration order.
    pub closed spec fn fields(self) -> Seq<Seq<char>> {
        names(self.fields@)
    }

    /// The values resolved so far: those of the fields before the one asked for.
    pub closed spec fn values(self) -> Seq<Seq<char>> {
        names(self.values@)
    }

    /// The name of the field that is asked for.
    pub open spec fn field(self) -> Seq<char> {
        self.fields()[self.values().len() as int]
    }

    /// The name of the field that is asked for.
    pub fn field_name(&self) -> (name: &str)
        ensures
            name@ == self.field(),
            self.values().len() < self.fields().len(),
    {
        proof {
            use_type_invariant(self);
        }
        self.fields[self.values.len()].as_str()
    }

    /// The key to ask the store for: that of the field asked for.
    pub fn key(&self) -> (key: String)
        ensures
            key@ == kebab(self.field()),
            self.values().len() < self.fields().len(),
    {
        snake_case_to_kebab_case(self.field_name())
    }

    /// Takes the store's answer to the request for [`Pending::key`].
    pub fn supply(self, reply: Result<String, StoreError>) -> (step: Step<'a>)
        ensures
            step@ == next_step(self.fields(), self.values(), reply_view(reply)),
    {
        proof {
            use_type_invariant(&self);
        }
        let Pending { fields, values } = self;
        match reply {
            Err(cause) => {
                let field_name = fields[values.len()].clone();
                Step::Failed(ResolutionError::FieldResolutionFailed { field_name, cause })
            },
            Ok(value) => {
                let mut values = values;
                let ghost before = names(values@);
                values.push(value);
                assert(names(values@) =~= before.push(value@));
                if values.len() == fields.len() {
                    Step::Done(values)
                } else {
                    Step::Ask(Pending { fields, values })
                }
            },
        }
    }
}

impl<'a> View for Step<'a> {
    type V = StepView;

    open spec fn view(&self) -> StepView {
        match *self {
            Step::Ask(pending) => StepView::Ask {
                fields: pending.fields(),
                values: pending.values(),
            },
            Step::Done(values) => StepView::Done(names(values@)),
            Step::Failed(error) => StepView::Failed(error@),
        }
    }
}

/// Starts a resolution of `shape`: refuses a shape that is not supported, and is done at once
/// with a record that has no field.
pub fn begin<'a>(shape: &'a TargetShape) -> (step: Step<'a>)
    ensures
        step@ == first_step(shape@),
{
    if !shape.is_supported() {
        return Step::Failed(ResolutionError::UnsupportedShape);
    }
    match shape {
        TargetShape::Record { fields } => {
            if fields.len() == 0 {
                let values: Vec<String> = Vec::new();
                assert(names(values@) =~= Seq::<Seq<char>>::empty());
                Step::Done(values)
            } else {
                let values: Vec<String> = Vec::new();
                assert(names(values@) =~= Seq::<Seq<char>>::empty());
                Step::Ask(Pending { fields, values })
            }
        },
        TargetShape::Other => Step::Failed(ResolutionError::UnsupportedShape),
    }
}

/// `reply` is an answer that `store` can give to a request for `key`.
pub open spec fn answers<S: ConfigStore>(
    store: &S,
    key: Seq<char>,
    reply: Result<String, StoreError>,
) -> bool {
    exists|asked: &str| asked@ == key && call_ensures(S::get_parameter, (store, asked), reply)
}

/// `replies[i]` is an answer that `store` can give to a request for the key of field `i`.
pub open spec fn answered_by<S: ConfigStore>(
    store: &S,
    shape: TargetShapeView,
    replies: Seq<Result<String, StoreError>>,
) -> bool {
    forall|i: int|
        0 <= i < replies.len() ==> answers(store, kebab(shape.fields()[i]), #[trigger] replies[i])
}

/// Resolves every field of `shape` against `store`: asks for the key of each field, one at a
/// time and in declaration order, and stops at the first answer without a value.
///
/// Whatever the store answers, the result is the outcome of the answers received: there are
/// answers of this store, one to the key of each field asked for, of which the result is the
/// outcome. A shape that is not supported is refused before anything is asked, and only such a
/// shape is; a record without fields resolves to no values.
pub fn resolve<S: ConfigStore>(shape: &TargetShape, store: &S) -> (result: Result<
    Vec<String>,
    ResolutionError,
>)
    ensures
        exists|replies: Seq<Result<String, StoreError>>|
            #[trigger] answered_by(store, shape@, replies) && outcome(
                shape@,
                reply_views(replies),
            ) == Some(outcome_view(result)),
        outcome_view(result) == Outcome::Err(ResolutionErrorView::UnsupportedShape)
            <==> !shape@.supported(),
        shape@.supported() && shape@.fields().len() == 0 ==> outcome_view(result) == Outcome::Ok(
            Seq::empty(),
        ),
{
    let ghost mut replies: Seq<Result<String, StoreError>> = Seq::empty();
    let mut step = begin(shape);
    proof {
        assert(values_of(reply_views(replies)) =~= Seq::<Seq<char>>::empty());
    }
    loop
        invariant
            answered_by(store, shape@, replies),
            is_trace(shape@, reply_views(replies)),
            match step@ {
                StepView::Ask { fields, values } => {
                    &&& shape@.supported()
                    &&& fields == shape@.fields()
                    &&& values == values_of(reply_views(replies))
                    &&& replies.len() < fields.len()
                    &&& forall|i: int| 0 <= i < replies.len() ==> (#[trigger] replies[i]) is Ok
                },
                StepView::Done(values) => outcome(shape@, reply_views(replies)) == Some(
                    Outcome::Ok(values),
                ),
                StepView::Failed(error) => outcome(shape@, reply_views(replies)) == Some(
                    Outcome::Err(error),
                ),
            },
            step@ == StepView::Failed(ResolutionErrorView::UnsupportedShape)
                <==> !shape@.supported(),
            shape@.supported() && shape@.fields().len() == 0 ==> step@ == StepView::Done(
                Seq::empty(),
            ),
        decreases shape@.fields().len() - replies.len(),
    {
        let pending = match step {
            Step::Ask(pending) => pending,
            Step::Done(values) => {
                return Ok(values);
            },
            Step::Failed(error) => {
                return Err(error);
            },
        };
        let key = pending.key();
        let reply = store.get_parameter(key.as_str());
        proof {
            let ghost before = replies;
            replies = replies.push(reply);
            let trace = reply_views(replies);
            assert(answers(store, kebab(shape@.fields()[before.len() as int]), reply));
            assert(trace =~= reply_views(before).push(reply_view(reply)));
            assert forall|i: int| 0 <= i < trace.len() - 1 implies (#[trigger] trace[i]) is Ok by {
                assert(before[i] is Ok);
            }
            if reply is Ok {
                assert(values_of(trace) =~= values_of(reply_views(before)).push(reply->Ok_0@));
            }
        }
        step = pending.supply(reply);
    }
}

} // verus!
