//! The media-publish state machine: upload the media, hold one fixed
//! 30-unit wait, query the processing status exactly once, hold at most one
//! more fixed 45-unit wait, then post — and fail fast, with the platform's
//! reason, at any reported failure. The caller performs the platform calls
//! and the waits; this machine only decides, one event at a time, what to
//! do next.

use vstd::prelude::*;

verus! {

/// What the platform reports of an uploaded medium's processing.
#[derive(Clone, Debug, PartialEq, Eq)]
pub enum MediaStatus {
    Pending,
    InProgress,
    Success,
    Failed(String),
}

/// Where one publish attempt stands.
#[derive(Clone, Debug, PartialEq, Eq)]
pub enum PublishState {
    /// Nothing happened yet.
    Created,
    /// The media upload is under way.
    MediaUploading,
    /// The fixed initial wait is under way.
    MediaWaiting,
    /// The single status query is under way.
    MediaQuerying,
    /// The platform reported pending or in-progress work: the one extra
    /// fixed wait is under way; the status is never queried again.
    MediaProcessing,
    /// The medium (if any) is usable; the post is under way.
    MediaReady,
    /// The post was submitted.
    Posted,
    /// The attempt failed for the carried reason; terminal.
    Failed(String),
}

/// What the caller reports back to the machine.
#[derive(Clone, Debug, PartialEq, Eq)]
pub enum PublishEvent {
    UploadOk,
    UploadFailed(String),
    Waited,
    Status(Option<MediaStatus>),
    PostOk,
    PostFailed(String),
}

/// What the machine asks the caller to do next.
#[derive(Clone, Debug, PartialEq, Eq)]
pub enum PublishAction {
    /// Upload the media bytes and report the outcome.
    UploadMedia,
    /// Hold a fixed, blocking wait of this many time units.
    Wait(u64),
    /// Query the processing status once and report it.
    QueryStatus,
    /// Submit the composed post and report the outcome.
    Post,
    /// Nothing is left to do.
    Stop,
}

/// Where a publish attempt starts: with media, at the upload; without, at
/// the post itself.
pub open spec fn spec_publish_init(has_media: bool) -> (PublishState, PublishAction) {
    if has_media {
        (PublishState::MediaUploading, PublishAction::UploadMedia)
    } else {
        (PublishState::MediaReady, PublishAction::Post)
    }
}

/// One transition. An upload failure, a reported processing failure, and a
/// post failure are each terminal with the platform's reason and without
/// retry. An absent or successful status proceeds straight to the post; a
/// pending or in-progress status buys exactly one more 45-unit wait and
/// then the post, with no second query. An event the state does not await
/// changes nothing and stops.
pub open spec fn spec_publish_step(st: PublishState, ev: PublishEvent) -> (
    PublishState,
    PublishAction,
) {
    match (st, ev) {
        (PublishState::MediaUploading, PublishEvent::UploadOk) => (
            PublishState::MediaWaiting,
            PublishAction::Wait(30),
        ),
        (PublishState::MediaUploading, PublishEvent::UploadFailed(reason)) => (
            PublishState::Failed(reason),
            PublishAction::Stop,
        ),
        (PublishState::MediaWaiting, PublishEvent::Waited) => (
            PublishState::MediaQuerying,
            PublishAction::QueryStatus,
        ),
        (PublishState::MediaQuerying, PublishEvent::Status(s)) => match s {
            None => (PublishState::MediaReady, PublishAction::Post),
            Some(MediaStatus::Success) => (PublishState::MediaReady, PublishAction::Post),
            Some(MediaStatus::Pending) => (PublishState::MediaProcessing, PublishAction::Wait(45)),
            Some(MediaStatus::InProgress) => (
                PublishState::MediaProcessing,
                PublishAction::Wait(45),
            ),
            Some(MediaStatus::Failed(reason)) => (
                PublishState::Failed(reason),
                PublishAction::Stop,
            ),
        },
        (PublishState::MediaProcessing, PublishEvent::Waited) => (
            PublishState::MediaReady,
            PublishAction::Post,
        ),
        (PublishState::MediaReady, PublishEvent::PostOk) => (
            PublishState::Posted,
            PublishAction::Stop,
        ),
        (PublishState::MediaReady, PublishEvent::PostFailed(reason)) => (
            PublishState::Failed(reason),
            PublishAction::Stop,
        ),
        (other, _) => (other, PublishAction::Stop),
    }
}

/// Start a publish attempt.
pub fn publish_init(has_media: bool) -> (r: (PublishState, PublishAction))
    ensures
        r == spec_publish_init(has_media),
{
    if has_media {
        (PublishState::MediaUploading, PublishAction::UploadMedia)
    } else {
        (PublishState::MediaReady, PublishAction::Post)
    }
}

/// Advance a publish attempt by one reported event.
pub fn publish_step(st: PublishState, ev: PublishEvent) -> (r: (PublishState, PublishAction))
    ensures
        r == spec_publish_step(st, ev),
{
    match (st, ev) {
        (PublishState::MediaUploading, PublishEvent::UploadOk) => (
            PublishState::MediaWaiting,
            PublishAction::Wait(30),
        ),
        (PublishState::MediaUploading, PublishEvent::UploadFailed(reason)) => (
            PublishState::Failed(reason),
            PublishAction::Stop,
        ),
        (PublishState::MediaWaiting, PublishEvent::Waited) => (
            PublishState::MediaQuerying,
            PublishAction::QueryStatus,
        ),
        (PublishState::MediaQuerying, PublishEvent::Status(s)) => match s {
            None => (PublishState::MediaReady, PublishAction::Post),
            Some(MediaStatus::Success) => (PublishState::MediaReady, PublishAction::Post),
            Some(MediaStatus::Pending) => (PublishState::MediaProcessing, PublishAction::Wait(45)),
            Some(MediaStatus::InProgress) => (
                PublishState::MediaProcessing,
                PublishAction::Wait(45),
            ),
            Some(MediaStatus::Failed(reason)) => (
                PublishState::Failed(reason),
                PublishAction::Stop,
            ),
        },
        (PublishState::MediaProcessing, PublishEvent::Waited) => (
            PublishState::MediaReady,
            PublishAction::Post,
        ),
        (PublishState::MediaReady, PublishEvent::PostOk) => (
            PublishState::Posted,
            PublishAction::Stop,
        ),
        (PublishState::MediaReady, PublishEvent::PostFailed(reason)) => (
            PublishState::Failed(reason),
            PublishAction::Stop,
        ),
        (other, _) => (other, PublishAction::Stop),
    }
}

/// Run the machine from a state through a list of events, collecting the
/// prescribed actions in order.
pub open spec fn spec_publish_run_from(st: PublishState, events: Seq<PublishEvent>) -> (
    PublishState,
    Seq<PublishAction>,
)
    decreases events.len(),
{
    if events.len() == 0 {
        (st, Seq::empty())
    } else {
        let (s1, a1) = spec_publish_step(st, events.first());
        let (sf, rest) = spec_publish_run_from(s1, events.drop_first());
        (sf, seq![a1] + rest)
    }
}

/// Run a whole attempt: the initial action, then one action per event.
pub open spec fn spec_publish_run(has_media: bool, events: Seq<PublishEvent>) -> (
    PublishState,
    Seq<PublishAction>,
) {
    let (s0, a0) = spec_publish_init(has_media);
    let (sf, rest) = spec_publish_run_from(s0, events);
    (sf, seq![a0] + rest)
}

/// A platform that reports an absent or successful status costs exactly one
/// 30-unit wait and one status query before the post: upload, wait 30,
/// query, post, stop — and the attempt ends posted.
pub proof fn lemma_publish_success_trace(status: Option<MediaStatus>)
    requires
        status is None || status matches Some(MediaStatus::Success),
    ensures
        spec_publish_run(
            true,
            seq![
                PublishEvent::UploadOk,
                PublishEvent::Waited,
                PublishEvent::Status(status),
                PublishEvent::PostOk,
            ],
        ) == (
            PublishState::Posted,
            seq![
                PublishAction::UploadMedia,
                PublishAction::Wait(30),
                PublishAction::QueryStatus,
                PublishAction::Post,
                PublishAction::Stop,
            ],
        ),
{
    let events = seq![
        PublishEvent::UploadOk,
        PublishEvent::Waited,
        PublishEvent::Status(status),
        PublishEvent::PostOk,
    ];
    reveal_with_fuel(spec_publish_run_from, 6);
    assert(events.drop_first() =~= seq![
        PublishEvent::Waited,
        PublishEvent::Status(status),
        PublishEvent::PostOk,
    ]);
    assert(events.drop_first().drop_first() =~= seq![
        PublishEvent::Status(status),
        PublishEvent::PostOk,
    ]);
    assert(events.drop_first().drop_first().drop_first() =~= seq![PublishEvent::PostOk]);
    assert(events.drop_first().drop_first().drop_first().drop_first() =~= Seq::<
        PublishEvent,
    >::empty());
    assert(spec_publish_run(true, events).1 =~= seq![
        PublishAction::UploadMedia,
        PublishAction::Wait(30),
        PublishAction::QueryStatus,
        PublishAction::Post,
        PublishAction::Stop,
    ]);
}

/// A platform that reports pending or in-progress work costs exactly one
/// 30-unit wait, one query, one 45-unit wait, and then the post with no
/// second query — and the attempt ends posted.
pub proof fn lemma_publish_processing_trace(status: MediaStatus)
    requires
        status is Pending || status is InProgress,
    ensures
        spec_publish_run(
            true,
            seq![
                PublishEvent::UploadOk,
                PublishEvent::Waited,
                PublishEvent::Status(Some(status)),
                PublishEvent::Waited,
                PublishEvent::PostOk,
            ],
        ) == (
            PublishState::Posted,
            seq![
                PublishAction::UploadMedia,
                PublishAction::Wait(30),
                PublishAction::QueryStatus,
                PublishAction::Wait(45),
                PublishAction::Post,
                PublishAction::Stop,
            ],
        ),
{
    let events = seq![
        PublishEvent::UploadOk,
        PublishEvent::Waited,
        PublishEvent::Status(Some(status)),
        PublishEvent::Waited,
        PublishEvent::PostOk,
    ];
    reveal_with_fuel(spec_publish_run_from, 7);
    assert(events.drop_first() =~= seq![
        PublishEvent::Waited,
        PublishEvent::Status(Some(status)),
        PublishEvent::Waited,
        PublishEvent::PostOk,
    ]);
    assert(events.drop_first().drop_first() =~= seq![
        PublishEvent::Status(Some(status)),
        PublishEvent::Waited,
        PublishEvent::PostOk,
    ]);
    assert(events.drop_first().drop_first().drop_first() =~= seq![
        PublishEvent::Waited,
        PublishEvent::PostOk,
    ]);
    assert(events.drop_first().drop_first().drop_first().drop_first() =~= seq![
        PublishEvent::PostOk,
    ]);
    assert(events.drop_first().drop_first().drop_first().drop_first().drop_first() =~= Seq::<
        PublishEvent,
    >::empty());
    assert(spec_publish_run(true, events).1 =~= seq![
        PublishAction::UploadMedia,
        PublishAction::Wait(30),
        PublishAction::QueryStatus,
        PublishAction::Wait(45),
        PublishAction::Post,
        PublishAction::Stop,
    ]);
}

/// A platform that reports a processing failure ends the attempt with that
/// very reason, after one 30-unit wait and one query, and nothing is ever
/// posted: no Post action is prescribed.
pub proof fn lemma_publish_failed_trace(reason: String)
    ensures
        spec_publish_run(
            true,
            seq![
                PublishEvent::UploadOk,
                PublishEvent::Waited,
                PublishEvent::Status(Some(MediaStatus::Failed(reason))),
            ],
        ) == (
            PublishState::Failed(reason),
            seq![
                PublishAction::UploadMedia,
                PublishAction::Wait(30),
                PublishAction::QueryStatus,
                PublishAction::Stop,
            ],
        ),
{
    let events = seq![
        PublishEvent::UploadOk,
        PublishEvent::Waited,
        PublishEvent::Status(Some(MediaStatus::Failed(reason))),
    ];
    reveal_with_fuel(spec_publish_run_from, 5);
    assert(events.drop_first() =~= seq![
        PublishEvent::Waited,
        PublishEvent::Status(Some(MediaStatus::Failed(reason))),
    ]);
    assert(events.drop_first().drop_first() =~= seq![
        PublishEvent::Status(Some(MediaStatus::Failed(reason))),
    ]);
    assert(events.drop_first().drop_first().drop_first() =~= Seq::<PublishEvent>::empty());
    assert(spec_publish_run(true, events).1 =~= seq![
        PublishAction::UploadMedia,
        PublishAction::Wait(30),
        PublishAction::QueryStatus,
        PublishAction::Stop,
    ]);
}

} // verus!
