use vstd::prelude::*;

use crate::endpoints::{
    batch_result_url, batch_upload_url, host_url, image_url, report_url, single_result_url,
    single_upload_url,
};
use crate::env::EnvTypes;
use crate::payload::{batch_payload_ready, batch_ready_of, payload_under_review, under_review_of};
use crate::poll::{PollStatus, PollStep, Poller, POLL_INTERVAL_MS};

verus! {

/// A writable address for one image, and the identifier that later queries
/// about that image use.
#[derive(Debug)]
pub struct GetImgUploadUrl {
    pub upload_url: String,
    pub image_id: String,
}

/// The body of a request for a batch of upload slots.
#[derive(Debug)]
pub struct BatchRequest {
    pub image_count: usize,
    pub entity_id: String,
    pub market_code: String,
}

pub open spec fn test_entity_id() -> Seq<char> {
    "HMK-TEST-123"@
}

pub open spec fn test_market_code() -> Seq<char> {
    "MY"@
}

impl BatchRequest {
    /// The request for `image_count` slots under the fixed test entity and
    /// market.
    pub fn for_test_images(image_count: usize) -> (r: BatchRequest)
        ensures
            r.image_count == image_count,
            r.entity_id@ == test_entity_id(),
            r.market_code@ == test_market_code(),
    {
        BatchRequest {
            image_count,
            entity_id: String::from_str("HMK-TEST-123"),
            market_code: String::from_str("MY"),
        }
    }
}

/// Which of the three flows a scenario runs.
#[derive(Clone, Copy, PartialEq, Eq, Structural, Debug)]
pub enum ScenarioKind {
    /// Upload one image and wait for its rating.
    Single,
    /// Upload one image, wait for its rating, flag it, and wait until the
    /// rating shows it under review.
    Report,
    /// Upload a batch of images and wait for their ratings.
    Batch,
}

/// The polling phase a timeout happened in.
#[derive(Clone, Copy, PartialEq, Eq, Structural, Debug)]
pub enum PollPhase {
    Rating,
    FirstRating,
    SecondRating,
    BatchRating,
}

/// Why a scenario failed.
#[derive(Debug)]
pub enum Failure {
    /// A request could not be made or its answer not read.
    Transport(String),
    /// The deadline of a polling phase passed.
    Timeout { phase: PollPhase, timeout_ms: u64, elapsed_ms: u64 },
    /// The flagged image's rating did not show `underReview` as true.
    NotUnderReview,
    /// The driver reported an event that does not fit the scenario's stage.
    OutOfOrder,
}

/// How a scenario ended: success with the final rating where the flow keeps
/// one, or failure with its cause.
#[derive(Debug)]
pub enum Outcome {
    Success(Option<serde_json::Value>),
    Failure(Failure),
}

/// What the driver of a scenario reports back.
#[derive(Debug)]
pub enum Event {
    /// Start the scenario.
    Begin,
    /// A single upload slot was granted.
    Target(GetImgUploadUrl),
    /// A batch of upload slots was granted.
    Targets(Vec<GetImgUploadUrl>),
    /// The image was transferred to the last upload address.
    Uploaded,
    /// Time since the current polling phase began.
    Clock { elapsed_ms: u64 },
    /// The rating endpoint answered: the payload on a success status, `None`
    /// on any other status.
    Rating(Option<serde_json::Value>),
    /// The batch rating endpoint answered with this payload.
    BatchRating(serde_json::Value),
    /// The flag request went through.
    Flagged,
    /// The pause between attempts is over.
    Slept,
    /// A request failed, with the transport's description.
    TransportFailed(String),
}

/// What the driver of a scenario does next.
#[derive(Debug)]
pub enum Action {
    FetchTarget { url: String },
    FetchBatchTargets { url: String, request: BatchRequest },
    /// Transfer the test image to this address.
    Upload { url: String },
    /// Start the deadline of a new polling phase, then report the clock.
    StartClock,
    /// Report the clock of the current polling phase.
    ReadClock,
    FetchRating { url: String },
    FetchBatchRating { url: String, image_ids: Vec<String> },
    Flag { url: String },
    Sleep { ms: u64 },
    Finish(Outcome),
}

/// Where a scenario stands.
#[derive(Clone, Copy, PartialEq, Eq, Structural, Debug)]
pub enum Stage {
    Start,
    AwaitTarget,
    Uploading { next: usize },
    Polling { phase: PollPhase },
    Flagging,
    Done,
}

/// One scenario against one deployment.
#[derive(Debug)]
pub struct Scenario {
    pub kind: ScenarioKind,
    pub env: EnvTypes,
    pub timeout_ms: u64,
    pub batch_size: usize,
    pub stage: Stage,
    pub targets: Vec<GetImgUploadUrl>,
    pub poller: Poller,
}

/// The first polling phase of each flow.
pub open spec fn first_phase(kind: ScenarioKind) -> PollPhase {
    match kind {
        ScenarioKind::Single => PollPhase::Rating,
        ScenarioKind::Report => PollPhase::FirstRating,
        ScenarioKind::Batch => PollPhase::BatchRating,
    }
}

impl Scenario {
    /// The shape every reachable state has: the stage agrees with the kind,
    /// the slots were granted before uploading, and the poller's state
    /// matches the stage.
    pub open spec fn wf(&self) -> bool {
        &&& (self.kind != ScenarioKind::Batch ==> match self.stage {
            Stage::Uploading { .. } | Stage::Polling { .. } | Stage::Flagging => self.targets@.len()
                == 1,
            _ => true,
        })
        &&& match self.stage {
            Stage::Uploading { next } => next < self.targets@.len(),
            Stage::Polling { phase } => {
                &&& phase == first_phase(self.kind) || (self.kind == ScenarioKind::Report && phase
                    == PollPhase::SecondRating)
                &&& self.poller.timeout_ms == self.timeout_ms
                &&& (self.poller.status == PollStatus::Waiting || self.poller.status
                    == PollStatus::Attempting)
            },
            Stage::Flagging => self.kind == ScenarioKind::Report,
            _ => true,
        }
    }

    pub fn new(kind: ScenarioKind, env: EnvTypes, timeout_ms: u64, batch_size: usize) -> (r:
        Scenario)
        ensures
            r.wf(),
            r.kind == kind,
            r.env == env,
            r.timeout_ms == timeout_ms,
            r.batch_size == batch_size,
            r.stage == Stage::Start,
            r.targets@.len() == 0,
    {
        Scenario {
            kind,
            env,
            timeout_ms,
            batch_size,
            stage: Stage::Start,
            targets: Vec::new(),
            poller: Poller::new(timeout_ms),
        }
    }
}

fn image_ids(targets: &Vec<GetImgUploadUrl>) -> (ids: Vec<String>)
    ensures
        ids@.len() == targets@.len(),
        forall|j: int| 0 <= j < ids@.len() ==> ids@[j]@ == targets@[j].image_id@,
{
    let mut ids: Vec<String> = Vec::new();
    let mut i: usize = 0;
    while i < targets.len()
        invariant
            i <= targets@.len(),
            ids@.len() == i,
            forall|j: int| 0 <= j < i ==> ids@[j]@ == targets@[j].image_id@,
        decreases targets@.len() - i,
    {
        ids.push(targets[i].image_id.clone());
        i = i + 1;
    }
    ids
}

/// The event is the one that the stage waits for.
pub open spec fn fits(s: Scenario, event: Event) -> bool {
    match (s.stage, event) {
        (Stage::Start, Event::Begin) => true,
        (Stage::AwaitTarget, Event::Target(_)) => s.kind != ScenarioKind::Batch,
        (Stage::AwaitTarget, Event::Targets(_)) => s.kind == ScenarioKind::Batch,
        (Stage::Uploading { .. }, Event::Uploaded) => true,
        (Stage::Polling { .. }, Event::Clock { .. }) => s.poller.status == PollStatus::Waiting,
        (Stage::Polling { .. }, Event::Slept) => s.poller.status == PollStatus::Waiting,
        (Stage::Polling { phase }, Event::Rating(_)) => s.poller.status == PollStatus::Attempting
            && phase != PollPhase::BatchRating,
        (Stage::Polling { phase }, Event::BatchRating(_)) => s.poller.status
            == PollStatus::Attempting && phase == PollPhase::BatchRating,
        (Stage::Flagging, Event::Flagged) => true,
        _ => false,
    }
}

/// The action that starts polling, or transfers to the next address.
pub open spec fn upload_or_poll(s: Scenario, next: int, r: Action, after: Scenario) -> bool {
    if next < s.targets@.len() {
        &&& after.stage == (Stage::Uploading { next: next as usize })
        &&& match r {
            Action::Upload { url } => url@ == s.targets@[next].upload_url@,
            _ => false,
        }
    } else {
        &&& after.stage == (Stage::Polling { phase: first_phase(s.kind) })
        &&& after.poller == Poller::fresh(s.timeout_ms)
        &&& r is StartClock
    }
}

impl Scenario {
    fn finish_with(&mut self, failure: Failure) -> (r: Action)
        requires
            old(self).wf(),
        ensures
            final(self).wf(),
            *final(self) == (Scenario { stage: Stage::Done, ..*old(self) }),
            r == Action::Finish(Outcome::Failure(failure)),
    {
        self.stage = Stage::Done;
        Action::Finish(Outcome::Failure(failure))
    }

    fn upload_next_or_poll(&mut self, next: usize) -> (r: Action)
        requires
            old(self).wf(),
            old(self).stage is Uploading || old(self).stage is AwaitTarget,
            old(self).kind != ScenarioKind::Batch ==> old(self).targets@.len() == 1,
        ensures
            final(self).wf(),
            final(self).kind == old(self).kind,
            final(self).env == old(self).env,
            final(self).timeout_ms == old(self).timeout_ms,
            final(self).batch_size == old(self).batch_size,
            final(self).targets == old(self).targets,
            upload_or_poll(*old(self), next as int, r, *final(self)),
    {
        if next < self.targets.len() {
            self.stage = Stage::Uploading { next };
            Action::Upload { url: self.targets[next].upload_url.clone() }
        } else {
            self.poller = Poller::new(self.timeout_ms);
            self.stage = Stage::Polling { phase: self.first_phase() };
            Action::StartClock
        }
    }

    fn first_phase(&self) -> (r: PollPhase)
        ensures
            r == first_phase(self.kind),
    {
        match self.kind {
            ScenarioKind::Single => PollPhase::Rating,
            ScenarioKind::Report => PollPhase::FirstRating,
            ScenarioKind::Batch => PollPhase::BatchRating,
        }
    }
}

impl Scenario {
    /// Takes the driver's report of what just happened and says what to do
    /// next. A transport failure ends any unfinished scenario with that
    /// failure; an event the stage does not wait for ends it as out of order.
    pub fn step(&mut self, event: Event) -> (r: Action)
        requires
            old(self).wf(),
        ensures
            final(self).wf(),
            final(self).kind == old(self).kind,
            final(self).env == old(self).env,
            final(self).timeout_ms == old(self).timeout_ms,
            final(self).batch_size == old(self).batch_size,
            // a request failed
            old(self).stage != Stage::Done && event is TransportFailed ==> final(self).stage
                == Stage::Done && match (r, event) {
                (
                    Action::Finish(Outcome::Failure(Failure::Transport(m))),
                    Event::TransportFailed(e),
                ) => m@ == e@,
                _ => false,
            },
            // an event out of place
            !fits(*old(self), event) && !(old(self).stage != Stage::Done
                && event is TransportFailed) ==> final(self).stage == Stage::Done && match r {
                Action::Finish(Outcome::Failure(Failure::OutOfOrder)) => true,
                _ => false,
            },
            // start: ask for upload slots
            fits(*old(self), event) && event is Begin ==> final(self).stage == Stage::AwaitTarget
                && if old(self).kind == ScenarioKind::Batch {
                match r {
                    Action::FetchBatchTargets { url, request } => url@ == host_url(old(self).env)
                        && request.image_count == old(self).batch_size && request.entity_id@
                        == test_entity_id() && request.market_code@ == test_market_code(),
                    _ => false,
                }
            } else {
                match r {
                    Action::FetchTarget { url } => url@ == host_url(old(self).env),
                    _ => false,
                }
            },
            // slots granted: keep them and transfer to the first
            fits(*old(self), event) ==> match event {
                Event::Target(t) => final(self).targets@ == seq![t] && upload_or_poll(
                    *final(self),
                    0,
                    r,
                    *final(self),
                ),
                Event::Targets(v) => final(self).targets@ == v@ && upload_or_poll(
                    *final(self),
                    0,
                    r,
                    *final(self),
                ),
                _ => true,
            },
            // a transfer is done: transfer to the next address, or start polling
            fits(*old(self), event) && event is Uploaded ==> final(self).targets == old(
                self,
            ).targets && upload_or_poll(
                *old(self),
                old(self).stage->next + 1,
                r,
                *final(self),
            ),
            // the clock is read before an attempt
            fits(*old(self), event) && event is Clock ==> ({
                let e = event->elapsed_ms;
                let phase = old(self).stage->phase;
                &&& final(self).poller == old(self).poller.after_tick(e)
                &&& final(self).targets == old(self).targets
                &&& if e > old(self).timeout_ms {
                    &&& final(self).stage == Stage::Done
                    &&& match r {
                        Action::Finish(
                            Outcome::Failure(Failure::Timeout { phase: p, timeout_ms, elapsed_ms }),
                        ) => p == phase && timeout_ms == old(self).timeout_ms && elapsed_ms == e,
                        _ => false,
                    }
                } else {
                    &&& final(self).stage == old(self).stage
                    &&& if phase == PollPhase::BatchRating {
                        match r {
                            Action::FetchBatchRating { url, image_ids } => url@ == host_url(
                                old(self).env,
                            ) && image_ids@.len() == old(self).targets@.len() && forall|j: int|
                                0 <= j < image_ids@.len() ==> image_ids@[j]@ == old(
                                    self,
                                ).targets@[j].image_id@,
                            _ => false,
                        }
                    } else {
                        match r {
                            Action::FetchRating { url } => url@ == image_url(
                                old(self).env,
                                old(self).targets@[0].image_id@,
                            ),
                            _ => false,
                        }
                    }
                }
            }),
            // a pause is over: read the clock again
            fits(*old(self), event) && event is Slept ==> *final(self) == *old(self) && r is ReadClock,
            // the rating endpoint answered
            fits(*old(self), event) ==> match event {
                Event::Rating(p) => {
                    let phase = old(self).stage->phase;
                    &&& final(self).poller == old(self).poller.after_outcome(p is Some)
                    &&& final(self).targets == old(self).targets
                    &&& match p {
                        None => final(self).stage == old(self).stage && r == (Action::Sleep {
                            ms: POLL_INTERVAL_MS,
                        }),
                        Some(payload) => match phase {
                            PollPhase::Rating => final(self).stage == Stage::Done && r
                                == Action::Finish(Outcome::Success(Some(payload))),
                            PollPhase::FirstRating => final(self).stage == Stage::Flagging
                                && match r {
                                Action::Flag { url } => url@ == image_url(
                                    old(self).env,
                                    old(self).targets@[0].image_id@,
                                ),
                                _ => false,
                            },
                            _ => final(self).stage == Stage::Done && match r {
                                Action::Finish(Outcome::Success(None)) => under_review_of(payload),
                                Action::Finish(Outcome::Failure(Failure::NotUnderReview)) => !under_review_of(
                                    payload,
                                ),
                                _ => false,
                            },
                        },
                    }
                },
                Event::BatchRating(payload) => {
                    &&& final(self).targets == old(self).targets
                    &&& final(self).poller == old(self).poller.after_outcome(batch_ready_of(payload))
                    &&& if batch_ready_of(payload) {
                        final(self).stage == Stage::Done && r == Action::Finish(
                            Outcome::Success(Some(payload)),
                        )
                    } else {
                        final(self).stage == old(self).stage && r == (Action::Sleep {
                            ms: POLL_INTERVAL_MS,
                        })
                    }
                },
                _ => true,
            },
            // the flag went through: poll again under a fresh deadline
            fits(*old(self), event) && event is Flagged ==> final(self).stage == (Stage::Polling {
                phase: PollPhase::SecondRating,
            }) && final(self).poller == Poller::fresh(old(self).timeout_ms) && final(self).targets
                == old(self).targets && r is StartClock,
    {
        if self.stage == Stage::Done {
            return self.finish_with(Failure::OutOfOrder);
        }
        match event {
            Event::TransportFailed(m) => self.finish_with(Failure::Transport(m)),
            Event::Begin => {
                if self.stage != Stage::Start {
                    return self.finish_with(Failure::OutOfOrder);
                }
                self.stage = Stage::AwaitTarget;
                if self.kind == ScenarioKind::Batch {
                    Action::FetchBatchTargets {
                        url: batch_upload_url(self.env),
                        request: BatchRequest::for_test_images(self.batch_size),
                    }
                } else {
                    Action::FetchTarget { url: single_upload_url(self.env) }
                }
            },
            Event::Target(t) => {
                if self.stage != Stage::AwaitTarget || self.kind == ScenarioKind::Batch {
                    return self.finish_with(Failure::OutOfOrder);
                }
                let mut targets: Vec<GetImgUploadUrl> = Vec::new();
                targets.push(t);
                self.targets = targets;
                proof {
                    assert(self.targets@ =~= seq![t]);
                }
                self.upload_next_or_poll(0)
            },
            Event::Targets(v) => {
                if self.stage != Stage::AwaitTarget || self.kind != ScenarioKind::Batch {
                    return self.finish_with(Failure::OutOfOrder);
                }
                self.targets = v;
                self.upload_next_or_poll(0)
            },
            Event::Uploaded => {
                match self.stage {
                    Stage::Uploading { next } => {
                        // `next` indexes a granted slot, so the first branch is the one taken
                        let count = self.targets.len();
                        self.upload_next_or_poll(if next < count {
                            next + 1
                        } else {
                            count
                        })
                    },
                    _ => self.finish_with(Failure::OutOfOrder),
                }
            },
            Event::Clock { elapsed_ms } => {
                let phase = match self.stage {
                    Stage::Polling { phase } => phase,
                    _ => {
                        return self.finish_with(Failure::OutOfOrder);
                    },
                };
                if self.poller.status != PollStatus::Waiting {
                    return self.finish_with(Failure::OutOfOrder);
                }
                match self.poller.tick(elapsed_ms) {
                    PollStep::Attempt => {
                        if phase == PollPhase::BatchRating {
                            Action::FetchBatchRating {
                                url: batch_result_url(self.env),
                                image_ids: image_ids(&self.targets),
                            }
                        } else {
                            Action::FetchRating {
                                url: single_result_url(self.env, self.targets[0].image_id.as_str()),
                            }
                        }
                    },
                    _ => {
                        self.stage = Stage::Done;
                        Action::Finish(
                            Outcome::Failure(
                                Failure::Timeout {
                                    phase,
                                    timeout_ms: self.timeout_ms,
                                    elapsed_ms,
                                },
                            ),
                        )
                    },
                }
            },
            Event::Slept => {
                match self.stage {
                    Stage::Polling { .. } => {
                        if self.poller.status != PollStatus::Waiting {
                            return self.finish_with(Failure::OutOfOrder);
                        }
                        Action::ReadClock
                    },
                    _ => self.finish_with(Failure::OutOfOrder),
                }
            },
            Event::Rating(p) => {
                let phase = match self.stage {
                    Stage::Polling { phase } => phase,
                    _ => {
                        return self.finish_with(Failure::OutOfOrder);
                    },
                };
                if self.poller.status != PollStatus::Attempting || phase == PollPhase::BatchRating {
                    return self.finish_with(Failure::OutOfOrder);
                }
                let ready = p.is_some();
                self.poller.outcome(ready);
                match p {
                    None => Action::Sleep { ms: POLL_INTERVAL_MS },
                    Some(payload) => {
                        if phase == PollPhase::Rating {
                            self.stage = Stage::Done;
                            Action::Finish(Outcome::Success(Some(payload)))
                        } else if phase == PollPhase::FirstRating {
                            self.stage = Stage::Flagging;
                            Action::Flag {
                                url: report_url(self.env, self.targets[0].image_id.as_str()),
                            }
                        } else {
                            self.stage = Stage::Done;
                            if payload_under_review(&payload) {
                                Action::Finish(Outcome::Success(None))
                            } else {
                                Action::Finish(Outcome::Failure(Failure::NotUnderReview))
                            }
                        }
                    },
                }
            },
            Event::BatchRating(payload) => {
                if self.stage != (Stage::Polling { phase: PollPhase::BatchRating })
                    || self.poller.status != PollStatus::Attempting {
                    return self.finish_with(Failure::OutOfOrder);
                }
                let ready = batch_payload_ready(&payload);
                self.poller.outcome(ready);
                if ready {
                    self.stage = Stage::Done;
                    Action::Finish(Outcome::Success(Some(payload)))
                } else {
                    Action::Sleep { ms: POLL_INTERVAL_MS }
                }
            },
            Event::Flagged => {
                if self.stage != Stage::Flagging {
                    return self.finish_with(Failure::OutOfOrder);
                }
                self.poller = Poller::new(self.timeout_ms);
                self.stage = Stage::Polling { phase: PollPhase::SecondRating };
                Action::StartClock
            },
        }
    }
}

} // verus!
