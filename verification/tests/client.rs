use minimeili::attrs_differ;
use minimeili::bearer_header;
use minimeili::decode_result;
use minimeili::delete_batch_path;
use minimeili::document_path;
use minimeili::documents_path;
use minimeili::ensure_index_step;
use minimeili::index_path;
use minimeili::is_success_code;
use minimeili::join_url;
use minimeili::nok_error;
use minimeili::plan_settings_update;
use minimeili::sort_attrs;
use minimeili::tasks_path;
use minimeili::u64_to_dec;
use minimeili::search_path;
use minimeili::settings_path;
use minimeili::settings_update_needed;
use minimeili::Error;
use minimeili::Index;
use minimeili::IndexPlan;
use minimeili::IndexSettings;

fn some_index() -> Index {
    Index {
        uid: String::from("names"),
        created_at: String::from("then"),
        updated_at: String::from("now"),
        primary_key: String::from("id"),
    }
}

#[test]
fn nok_error_drops_an_empty_body() {
    let e = nok_error(500, String::new());
    assert_eq!(e, Error::UnexpectedNok { code: 500, body: None });
}

#[test]
fn nok_error_keeps_a_nonempty_body() {
    let e = nok_error(502, String::from("bad gateway"));
    assert_eq!(
        e,
        Error::UnexpectedNok { code: 502, body: Some(String::from("bad gateway")) }
    );
}

#[test]
fn success_codes_are_the_two_hundreds() {
    assert!(is_success_code(200));
    assert!(is_success_code(204));
    assert!(is_success_code(299));
    assert!(!is_success_code(199));
    assert!(!is_success_code(300));
    assert!(!is_success_code(404));
}

#[test]
fn ensure_index_step_leaves_an_existing_index_alone() {
    assert_eq!(ensure_index_step(Ok(some_index())), IndexPlan::AlreadyExists);
}

#[test]
fn ensure_index_step_creates_on_not_found() {
    let lookup = Err(Error::UnexpectedNok { code: 404, body: None });
    assert_eq!(ensure_index_step(lookup), IndexPlan::CreateNeeded);
}

#[test]
fn ensure_index_step_fails_on_other_errors() {
    let lookup: Result<Index, Error> = Err(Error::Transport(String::from("refused")));
    assert_eq!(
        ensure_index_step(lookup),
        IndexPlan::Fail(Error::Transport(String::from("refused")))
    );
}

#[test]
fn decode_result_passes_values_and_wraps_messages() {
    let ok: Result<u32, String> = Ok(5);
    assert_eq!(decode_result(ok, String::from("5")), Ok(5));

    let bad: Result<u32, String> = Err(String::from("expected a number"));
    assert_eq!(
        decode_result(bad, String::from("x")),
        Err(Error::Deserialize { err: String::from("expected a number"), body: String::from("x") })
    );
}

#[test]
fn bearer_header_prefixes_the_token() {
    assert_eq!(bearer_header("sometoken"), "Bearer sometoken");
}

#[test]
fn paths_are_built_from_their_parts() {
    assert_eq!(index_path("names"), "/indexes/names");
    assert_eq!(documents_path("names"), "/indexes/names/documents");
    assert_eq!(document_path("names", "42"), "/indexes/names/documents/42");
    assert_eq!(delete_batch_path("names"), "/indexes/names/documents/delete-batch");
    assert_eq!(search_path("names"), "/indexes/names/search");
    assert_eq!(settings_path("names"), "/indexes/names/settings");
}

#[test]
fn task_paths_write_the_uid_in_decimal() {
    assert_eq!(tasks_path(232), "/tasks/232");
    assert_eq!(tasks_path(0), "/tasks/0");
    assert_eq!(u64_to_dec(0), "0");
    assert_eq!(u64_to_dec(1009), "1009");
    assert_eq!(u64_to_dec(u64::MAX), "18446744073709551615");
}

#[test]
fn join_url_leaves_exactly_one_separator() {
    assert_eq!(join_url("http://x.example", "/tasks/3"), "http://x.example/tasks/3");
    assert_eq!(join_url("http://x.example/", "/tasks/3"), "http://x.example/tasks/3");
    assert_eq!(join_url("http://x.example//", "tasks/3"), "http://x.example/tasks/3");
    assert_eq!(join_url("http://x.example", "tasks/3"), "http://x.example/tasks/3");
}

fn words(items: &[&str]) -> Vec<String> {
    items.iter().map(|s| String::from(*s)).collect()
}

#[test]
fn attribute_lists_match_regardless_of_order() {
    assert!(!attrs_differ(&words(&["id", "name"]), &words(&["name", "id"])));
    assert!(!attrs_differ(&words(&[]), &words(&[])));
}

#[test]
fn attribute_lists_differ_by_content_and_multiplicity() {
    assert!(attrs_differ(&words(&["id"]), &words(&["name"])));
    assert!(attrs_differ(&words(&["id"]), &words(&["id", "id"])));
    assert!(attrs_differ(&words(&["id"]), &words(&[])));
}

#[test]
fn sort_attrs_orders_words_and_keeps_duplicates() {
    assert_eq!(
        sort_attrs(words(&["name", "id", "name", "age"])),
        words(&["age", "id", "name", "name"])
    );
    assert_eq!(sort_attrs(words(&[])), words(&[]));
}

#[test]
fn plan_settings_update_is_none_when_lists_already_agree() {
    let mut settings = IndexSettings::default();
    settings.filterable_attributes = words(&["name", "id"]);
    settings.sortable_attributes = words(&["id"]);
    settings.searchable_attributes = words(&["*"]);

    let plan = plan_settings_update(
        words(&["id", "name"]),
        words(&["id"]),
        words(&["*"]),
        &settings,
    );
    assert!(plan.is_none());
}

#[test]
fn plan_settings_update_sorts_the_declared_lists() {
    let mut settings = IndexSettings::default();
    settings.proximity_precision = String::from("byWord");
    settings.ranking_rules = words(&["words", "typo"]);

    let plan = plan_settings_update(
        words(&["name", "id"]),
        words(&["id"]),
        words(&["*"]),
        &settings,
    );
    let updated = plan.expect("lists disagree, so an update is due");
    assert_eq!(updated.filterable_attributes, words(&["id", "name"]));
    assert_eq!(updated.sortable_attributes, words(&["id"]));
    assert_eq!(updated.searchable_attributes, words(&["*"]));
    assert_eq!(updated.proximity_precision, "byWord");
    assert_eq!(updated.ranking_rules, words(&["words", "typo"]));
}

#[test]
fn settings_update_needed_checks_all_three_lists() {
    let mut settings = IndexSettings::default();
    settings.filterable_attributes = words(&["id", "name"]);
    settings.sortable_attributes = words(&["id"]);
    settings.searchable_attributes = words(&["*"]);

    assert!(!settings_update_needed(
        &words(&["name", "id"]),
        &words(&["id"]),
        &words(&["*"]),
        &settings,
    ));
    assert!(settings_update_needed(
        &words(&["name"]),
        &words(&["id"]),
        &words(&["*"]),
        &settings,
    ));
    assert!(settings_update_needed(
        &words(&["name", "id"]),
        &words(&["id"]),
        &words(&["name"]),
        &settings,
    ));
}
