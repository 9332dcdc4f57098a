use bkeeper::publish::{
    publish_init, publish_step, MediaStatus, PublishAction, PublishEvent, PublishState,
};

fn drive(has_media: bool, events: Vec<PublishEvent>) -> (PublishState, Vec<PublishAction>) {
    let (mut st, a0) = publish_init(has_media);
    let mut actions = vec![a0];
    for ev in events {
        let (ns, act) = publish_step(st, ev);
        st = ns;
        actions.push(act);
    }
    (st, actions)
}

#[test]
fn immediate_success_means_one_wait_and_one_query() {
    let (st, actions) = drive(
        true,
        vec![
            PublishEvent::UploadOk,
            PublishEvent::Waited,
            PublishEvent::Status(Some(MediaStatus::Success)),
            PublishEvent::PostOk,
        ],
    );
    assert_eq!(st, PublishState::Posted);
    assert_eq!(
        actions,
        vec![
            PublishAction::UploadMedia,
            PublishAction::Wait(30),
            PublishAction::QueryStatus,
            PublishAction::Post,
            PublishAction::Stop,
        ]
    );
    let waits = actions.iter().filter(|a| matches!(a, PublishAction::Wait(_))).count();
    let queries = actions.iter().filter(|a| matches!(a, PublishAction::QueryStatus)).count();
    assert_eq!(waits, 1);
    assert_eq!(queries, 1);
}

#[test]
fn absent_status_counts_as_success() {
    let (st, actions) = drive(
        true,
        vec![
            PublishEvent::UploadOk,
            PublishEvent::Waited,
            PublishEvent::Status(None),
            PublishEvent::PostOk,
        ],
    );
    assert_eq!(st, PublishState::Posted);
    assert_eq!(actions[3], PublishAction::Post);
}

#[test]
fn in_progress_buys_one_more_wait_and_no_second_query() {
    let (st, actions) = drive(
        true,
        vec![
            PublishEvent::UploadOk,
            PublishEvent::Waited,
            PublishEvent::Status(Some(MediaStatus::InProgress)),
            PublishEvent::Waited,
            PublishEvent::PostOk,
        ],
    );
    assert_eq!(st, PublishState::Posted);
    assert_eq!(
        actions,
        vec![
            PublishAction::UploadMedia,
            PublishAction::Wait(30),
            PublishAction::QueryStatus,
            PublishAction::Wait(45),
            PublishAction::Post,
            PublishAction::Stop,
        ]
    );
    let queries = actions.iter().filter(|a| matches!(a, PublishAction::QueryStatus)).count();
    assert_eq!(queries, 1);
}

#[test]
fn pending_behaves_like_in_progress() {
    let (st, actions) = drive(
        true,
        vec![
            PublishEvent::UploadOk,
            PublishEvent::Waited,
            PublishEvent::Status(Some(MediaStatus::Pending)),
            PublishEvent::Waited,
            PublishEvent::PostOk,
        ],
    );
    assert_eq!(st, PublishState::Posted);
    assert_eq!(actions[3], PublishAction::Wait(45));
}

#[test]
fn reported_failure_fails_with_that_reason_and_never_posts() {
    let (st, actions) = drive(
        true,
        vec![
            PublishEvent::UploadOk,
            PublishEvent::Waited,
            PublishEvent::Status(Some(MediaStatus::Failed("x".to_string()))),
        ],
    );
    assert_eq!(st, PublishState::Failed("x".to_string()));
    assert!(!actions.contains(&PublishAction::Post));
    assert_eq!(actions.last(), Some(&PublishAction::Stop));
}

#[test]
fn upload_failure_is_fatal() {
    let (st, actions) = drive(
        true,
        vec![PublishEvent::UploadFailed("denied".to_string())],
    );
    assert_eq!(st, PublishState::Failed("denied".to_string()));
    assert!(!actions.contains(&PublishAction::Post));
}

#[test]
fn post_failure_is_fatal_and_not_retried() {
    let (st, actions) = drive(
        true,
        vec![
            PublishEvent::UploadOk,
            PublishEvent::Waited,
            PublishEvent::Status(None),
            PublishEvent::PostFailed("410".to_string()),
        ],
    );
    assert_eq!(st, PublishState::Failed("410".to_string()));
    let posts = actions.iter().filter(|a| matches!(a, PublishAction::Post)).count();
    assert_eq!(posts, 1);
}

#[test]
fn no_media_goes_straight_to_the_post() {
    let (st, actions) = drive(false, vec![PublishEvent::PostOk]);
    assert_eq!(st, PublishState::Posted);
    assert_eq!(actions, vec![PublishAction::Post, PublishAction::Stop]);
}
