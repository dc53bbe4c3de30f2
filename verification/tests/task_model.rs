use minimeili::AsTaskUid;
use minimeili::Search;
use minimeili::Task;
use minimeili::TaskError;
use minimeili::TaskKind;
use minimeili::TaskKindRef;
use minimeili::TaskRef;
use minimeili::TaskStatus;

fn successful_task(uid: u64) -> Task {
    Task {
        uid,
        index_uid: String::from("afejkone"),
        status: TaskStatus::Succeeded,
        kind: TaskKind::IndexDeletion { deleted_documents: None },
        canceled_by: None,
        error: None,
        duration: None,
        enqueued_at: String::from("fejkedtime"),
        started_at: None,
        finished_at: None,
    }
}

#[test]
fn has_stopped_is_true_exactly_for_terminal_statuses() {
    assert!(!TaskStatus::Enqueued.has_stopped());
    assert!(!TaskStatus::Processing.has_stopped());
    assert!(TaskStatus::Succeeded.has_stopped());
    assert!(TaskStatus::Failed.has_stopped());
    assert!(TaskStatus::Canceled.has_stopped());
}

#[test]
fn as_task_uid_reads_the_uid_from_every_form() {
    assert_eq!(232u64.as_task_uid(), 232);

    let task = successful_task(17);
    assert_eq!(task.as_task_uid(), 17);

    let task_ref = TaskRef {
        uid: 18,
        index_uid: String::from("afejkone"),
        status: TaskStatus::Enqueued,
        kind: TaskKindRef::IndexDeletion,
        enqueued_at: String::from("fejkedtime"),
    };
    assert_eq!(task_ref.as_task_uid(), 18);
}

#[test]
fn task_clone_preserves_every_field() {
    let task = successful_task(40);
    assert_eq!(task.clone(), task);
}

#[test]
fn task_error_default_is_empty() {
    let e = TaskError::default();
    assert_eq!(e.message, "");
    assert_eq!(e.code, "");
    assert_eq!(e.type_field, "");
    assert_eq!(e.link, "");
}

#[test]
fn search_new_leaves_every_option_at_the_default() {
    let s = Search::new(String::from("hello"));
    assert_eq!(s.query, "hello");
    assert!(s.offset.is_none());
    assert!(s.limit.is_none());
    assert!(s.hits_per_page.is_none());
    assert!(s.page.is_none());
    assert!(s.filter.is_none());
    assert!(s.facets.is_empty());
    assert!(s.attributes_to_retrieve.is_empty());
    assert!(s.attributes_to_crop.is_empty());
    assert!(s.crop_length.is_none());
    assert!(s.crop_marker.is_none());
    assert!(s.attributes_to_highlight.is_empty());
    assert!(s.highlight_pre_tag.is_none());
    assert!(s.highlight_post_tag.is_none());
    assert!(s.show_matches_position.is_none());
    assert!(s.sort.is_empty());
    assert!(s.matching_strategy.is_none());
    assert!(s.show_ranking_score.is_none());
    assert!(s.attributes_to_search_on.is_empty());
}

#[test]
fn search_builders_change_only_their_field() {
    let s = Search::new(String::from("q"))
        .hits_per_page(Some(25))
        .page(Some(2))
        .sort_by(String::from("id:asc"))
        .sort_by(String::from("name:desc"))
        .filter(Some(String::from("id > 3")));

    assert_eq!(s.query, "q");
    assert_eq!(s.hits_per_page, Some(25));
    assert_eq!(s.page, Some(2));
    assert_eq!(s.sort, vec![String::from("id:asc"), String::from("name:desc")]);
    assert_eq!(s.filter, Some(String::from("id > 3")));
    assert!(s.offset.is_none());
    assert!(s.limit.is_none());
}
