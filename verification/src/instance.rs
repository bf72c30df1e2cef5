//! What the cloud reports of a compute instance, and what is made of the report.

use vstd::prelude::*;
use vstd::string::StringExecFns;

verus! {

/// Where a compute instance stands in its life cycle.
#[derive(Debug, Clone, Copy, PartialEq, Eq)]
pub enum InstanceState {
    Starting,
    Running,
    Stopping,
    Stopped,
    Terminating,
    Terminated,
    Unknown,
}

/// The state that the cloud reports under the name `name`; `Unknown` for any name but the six
/// that are known.
pub open spec fn state_named(name: Seq<char>) -> InstanceState {
    if name == "pending"@ {
        InstanceState::Starting
    } else if name == "running"@ {
        InstanceState::Running
    } else if name == "stopping"@ {
        InstanceState::Stopping
    } else if name == "stopped"@ {
        InstanceState::Stopped
    } else if name == "shutting-down"@ {
        InstanceState::Terminating
    } else if name == "terminated"@ {
        InstanceState::Terminated
    } else {
        InstanceState::Unknown
    }
}

/// Tells whether two texts are the same.
fn same_text(a: &str, b: &str) -> (same: bool)
    ensures
        same == (a@ == b@),
{
    String::from_str(a) == String::from_str(b)
}

impl InstanceState {
    /// The state that the cloud reports under the name `name`.
    pub fn from_name(name: &str) -> (state: InstanceState)
        ensures
            state == state_named(name@),
    {
        if same_text(name, "pending") {
            InstanceState::Starting
        } else if same_text(name, "running") {
            InstanceState::Running
        } else if same_text(name, "stopping") {
            InstanceState::Stopping
        } else if same_text(name, "stopped") {
            InstanceState::Stopped
        } else if same_text(name, "shutting-down") {
            InstanceState::Terminating
        } else if same_text(name, "terminated") {
            InstanceState::Terminated
        } else {
            InstanceState::Unknown
        }
    }
}

/// A tag as the cloud reports it: either part may be missing.
#[derive(Debug, Clone, PartialEq, Eq)]
pub struct ReportedTag {
    pub key: Option<String>,
    pub value: Option<String>,
}

/// What the cloud reports of one instance. `A` is the type of a network address; an address
/// that was reported but could not be read is kept as the reason why.
#[derive(Debug, Clone, PartialEq, Eq)]
pub struct InstanceReport<A> {
    pub instance_id: Option<String>,
    pub private_ip: Option<Result<A, String>>,
    pub state_name: Option<String>,
    pub tags: Vec<ReportedTag>,
}

/// An instance of which everything needed is known.
#[derive(Debug, Clone, PartialEq, Eq)]
pub struct InstanceDescription<A> {
    pub instance_id: String,
    pub private_ip: A,
    pub status: InstanceState,
    pub tags: Vec<(String, String)>,
}

/// What a report lacks.
#[derive(Debug, Clone, PartialEq, Eq)]
pub enum InstanceReportError {
    NoInstanceId,
    NoPrivateIp { instance_id: String },
    BadPrivateIp { reason: String },
    NoStatus { instance_id: String },
}

/// A [`ReportedTag`] as contracts speak of it.
pub struct ReportedTagView {
    pub key: Option<Seq<char>>,
    pub value: Option<Seq<char>>,
}

/// An [`InstanceReport`] as contracts speak of it.
pub struct InstanceReportView<A> {
    pub instance_id: Option<Seq<char>>,
    pub private_ip: Option<Result<A, Seq<char>>>,
    pub state_name: Option<Seq<char>>,
    pub tags: Seq<ReportedTagView>,
}

/// An [`InstanceDescription`] as contracts speak of it.
pub struct InstanceDescriptionView<A> {
    pub instance_id: Seq<char>,
    pub private_ip: A,
    pub status: InstanceState,
    pub tags: Seq<(Seq<char>, Seq<char>)>,
}

/// An [`InstanceReportError`] as contracts speak of it.
pub enum InstanceReportErrorView {
    NoInstanceId,
    NoPrivateIp { instance_id: Seq<char> },
    BadPrivateIp { reason: Seq<char> },
    NoStatus { instance_id: Seq<char> },
}

/// A text that may be missing, as contracts speak of it.
pub open spec fn text_view(text: Option<String>) -> Option<Seq<char>> {
    match text {
        Some(text) => Some(text@),
        None => None,
    }
}

impl View for ReportedTag {
    type V = ReportedTagView;

    open spec fn view(&self) -> ReportedTagView {
        ReportedTagView { key: text_view(self.key), value: text_view(self.value) }
    }
}

/// Reported tags as contracts speak of them.
pub open spec fn tag_views(tags: Seq<ReportedTag>) -> Seq<ReportedTagView> {
    Seq::new(tags.len(), |i: int| tags[i]@)
}

/// Pairs of texts as contracts speak of them.
pub open spec fn pair_views(pairs: Seq<(String, String)>) -> Seq<(Seq<char>, Seq<char>)> {
    Seq::new(pairs.len(), |i: int| (pairs[i].0@, pairs[i].1@))
}

impl<A> View for InstanceReport<A> {
    type V = InstanceReportView<A>;

    open spec fn view(&self) -> InstanceReportView<A> {
        InstanceReportView {
            instance_id: text_view(self.instance_id),
            private_ip: match self.private_ip {
                Some(Ok(address)) => Some(Ok(address)),
                Some(Err(reason)) => Some(Err(reason@)),
                None => None,
            },
            state_name: text_view(self.state_name),
            tags: tag_views(self.tags@),
        }
    }
}

impl<A> View for InstanceDescription<A> {
    type V = InstanceDescriptionView<A>;

    open spec fn view(&self) -> InstanceDescriptionView<A> {
        InstanceDescriptionView {
            instance_id: self.instance_id@,
            private_ip: self.private_ip,
            status: self.status,
            tags: pair_views(self.tags@),
        }
    }
}

impl View for InstanceReportError {
    type V = InstanceReportErrorView;

    open spec fn view(&self) -> InstanceReportErrorView {
        match *self {
            InstanceReportError::NoInstanceId => InstanceReportErrorView::NoInstanceId,
            InstanceReportError::NoPrivateIp { instance_id } => InstanceReportErrorView::NoPrivateIp {
                instance_id: instance_id@,
            },
            InstanceReportError::BadPrivateIp { reason } => InstanceReportErrorView::BadPrivateIp {
                reason: reason@,
            },
            InstanceReportError::NoStatus { instance_id } => InstanceReportErrorView::NoStatus {
                instance_id: instance_id@,
            },
        }
    }
}

/// The tags that have both a key and a value, as pairs, in the order they were reported in.
pub open spec fn complete_tags(tags: Seq<ReportedTagView>) -> Seq<(Seq<char>, Seq<char>)>
    decreases tags.len(),
{
    if tags.len() == 0 {
        Seq::empty()
    } else {
        let earlier = complete_tags(tags.drop_last());
        match (tags.last().key, tags.last().value) {
            (Some(key), Some(value)) => earlier.push((key, value)),
            _ => earlier,
        }
    }
}

/// What is made of a report: the first thing it lacks, asked for in the order identifier,
/// address, state; or the instance, with its state read from the state's name and with the
/// tags that are complete.
pub open spec fn described<A>(report: InstanceReportView<A>) -> Result<
    InstanceDescriptionView<A>,
    InstanceReportErrorView,
> {
    match report.instance_id {
        None => Err(InstanceReportErrorView::NoInstanceId),
        Some(instance_id) => match report.private_ip {
            None => Err(InstanceReportErrorView::NoPrivateIp { instance_id }),
            Some(Err(reason)) => Err(InstanceReportErrorView::BadPrivateIp { reason }),
            Some(Ok(private_ip)) => match report.state_name {
                None => Err(InstanceReportErrorView::NoStatus { instance_id }),
                Some(name) => Ok(
                    InstanceDescriptionView {
                        instance_id,
                        private_ip,
                        status: state_named(name),
                        tags: complete_tags(report.tags),
                    },
                ),
            },
        },
    }
}

/// The result of [`describe_instance`] as contracts speak of it.
pub open spec fn description_view<A>(
    result: Result<InstanceDescription<A>, InstanceReportError>,
) -> Result<InstanceDescriptionView<A>, InstanceReportErrorView> {
    match result {
        Ok(description) => Ok(description@),
        Err(error) => Err(error@),
    }
}

/// Keeps the tags that have both a key and a value, as pairs, in the order reported.
pub fn tag_pairs(tags: &Vec<ReportedTag>) -> (pairs: Vec<(String, String)>)
    ensures
        pair_views(pairs@) == complete_tags(tag_views(tags@)),
{
    let ghost all = tag_views(tags@);
    let mut pairs: Vec<(String, String)> = Vec::new();
    let mut n: usize = 0;
    assert(all.take(0) =~= Seq::<ReportedTagView>::empty());
    assert(pair_views(pairs@) =~= Seq::<(Seq<char>, Seq<char>)>::empty());
    while n < tags.len()
        invariant
            n <= tags.len(),
            all == tag_views(tags@),
            pair_views(pairs@) == complete_tags(all.take(n as int)),
        decreases tags.len() - n,
    {
        let ghost before = pair_views(pairs@);
        proof {
            assert(all.take(n + 1).drop_last() =~= all.take(n as int));
            assert(all.take(n + 1).last() == tags@[n as int]@);
        }
        match (&tags[n].key, &tags[n].value) {
            (Some(key), Some(value)) => {
                pairs.push((key.clone(), value.clone()));
                assert(pair_views(pairs@) =~= before.push((key@, value@)));
            },
            _ => {},
        }
        n += 1;
    }
    assert(all.take(tags.len() as int) =~= all);
    pairs
}

/// Makes an instance of a report, or says what the report lacks.
pub fn describe_instance<A>(report: InstanceReport<A>) -> (result: Result<
    InstanceDescription<A>,
    InstanceReportError,
>)
    ensures
        description_view(result) == described(report@),
{
    let InstanceReport { instance_id, private_ip, state_name, tags } = report;
    let instance_id = match instance_id {
        Some(instance_id) => instance_id,
        None => {
            return Err(InstanceReportError::NoInstanceId);
        },
    };
    let private_ip = match private_ip {
        Some(Ok(address)) => address,
        Some(Err(reason)) => {
            return Err(InstanceReportError::BadPrivateIp { reason });
        },
        None => {
            return Err(InstanceReportError::NoPrivateIp { instance_id });
        },
    };
    let status = match state_name {
        Some(name) => InstanceState::from_name(name.as_str()),
        None => {
            return Err(InstanceReportError::NoStatus { instance_id });
        },
    };
    let tags = tag_pairs(&tags);
    Ok(InstanceDescription { instance_id, private_ip, status, tags })
}

impl InstanceReportError {
    /// The failure in words.
    pub fn message(&self) -> (text: String)
        ensures
            text@ == instance_report_error_text(self@),
    {
        match self {
            InstanceReportError::NoInstanceId => String::from_str("No instance id Found"),
            InstanceReportError::NoPrivateIp { instance_id } => {
                let mut text = String::from_str("No private IP found for ");
                text.append(instance_id.as_str());
                text
            },
            InstanceReportError::BadPrivateIp { reason } => reason.clone(),
            InstanceReportError::NoStatus { instance_id } => {
                let mut text = String::from_str("No status found for ");
                text.append(instance_id.as_str());
                text
            },
        }
    }
}

/// The text a lacking report is refused with.
pub open spec fn instance_report_error_text(e: InstanceReportErrorView) -> Seq<char> {
    match e {
        InstanceReportErrorView::NoInstanceId => "No instance id Found"@,
        InstanceReportErrorView::NoPrivateIp { instance_id } => "No private IP found for "@
            + instance_id,
        InstanceReportErrorView::BadPrivateIp { reason } => reason,
        InstanceReportErrorView::NoStatus { instance_id } => "No status found for "@ + instance_id,
    }
}

} // verus!
