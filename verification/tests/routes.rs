use listas::actors::subscription_copy;
use listas::components::models::{Auth0User, List as FirstList, ListCreate, User as FirstUser, UserCreate};
use listas::date::DateTime;
use listas::emails::{confirm_email_link, password_reset_email_link, subscription_removed_link};
use listas::errors::Error;
use listas::integrations::rss::{collect_results, resource_from_entry, Entry, Response, RSS};
use listas::jobs::{import_positions, imported_resource, JobPayload};
use listas::models::integration::{Integration, Kind};
use listas::models::list::List;
use listas::models::resource::{Resource, ResourceUpdate};
use listas::models::user::User;
use listas::object_id::ObjectId;
use listas::resource_metadata::{needs_fallback, scrape_page, website_metadata, LinkishResponse, WebsiteMetadata};
use listas::routes::resource::{
    build_metrics_pipeline, build_query_pipeline, completion_change, moves_to_other_list, new_resource,
    position_after, CompletionRefused, Fuzzy, ResourceCreate, ResourceQuery, SortKey, Stage,
};
use listas::routes::resource::{
    first_metric, list_accepts_resource, pipeline_documents, stage_document, position_after_exists, position_after_lookup, position_plan,
    position_shift, Metric, PositionAction, PositionShift, PositionUpdate, ShiftFilter,
};
use listas::util::parse_url;
use listas::document::{Bson, Document};

fn oid(n: u8) -> ObjectId {
    ObjectId { bytes: [n; 12] }
}

fn query() -> ResourceQuery {
    ResourceQuery { list: None, completed: None, sort: None, search_text: None, skip: None, limit: None }
}

#[test]
fn default_query_sorts_by_creation() {
    let stages = build_query_pipeline(oid(1), &query()).unwrap();
    assert_eq!(
        stages,
        vec![
            Stage::Search { user: oid(1), list: None, text: None, fuzzy: Some(Fuzzy { max_edits: 2, prefix_length: 3 }) },
            Stage::Sort(SortKey::CreatedAtDesc),
        ]
    );
}

#[test]
fn full_query() {
    let q = ResourceQuery {
        list: Some("020202020202020202020202".into()),
        completed: Some(true),
        sort: Some("position_des".into()),
        search_text: None,
        skip: Some(5),
        limit: Some(10),
    };
    assert_eq!(
        build_query_pipeline(oid(1), &q).unwrap(),
        vec![
            Stage::Search { user: oid(1), list: Some(oid(2)), text: None, fuzzy: Some(Fuzzy { max_edits: 2, prefix_length: 3 }) },
            Stage::MatchCompleted(true),
            Stage::Sort(SortKey::PositionDesc),
            Stage::Skip(5),
            Stage::Limit(10),
        ]
    );
}

#[test]
fn completed_query_sorts_by_completion_and_search_text_drops_sort() {
    let mut q = query();
    q.completed = Some(true);
    assert_eq!(build_query_pipeline(oid(1), &q).unwrap()[2], Stage::Sort(SortKey::CompletedAtDesc));
    q.completed = Some(false);
    q.sort = Some("position_asc".into());
    assert_eq!(build_query_pipeline(oid(1), &q).unwrap()[2], Stage::Sort(SortKey::PositionAsc));
    q.search_text = Some("rust".into());
    let stages = build_query_pipeline(oid(1), &q).unwrap();
    assert_eq!(stages.len(), 2);
    assert_eq!(stages[1], Stage::MatchCompleted(false));
}

#[test]
fn bad_list_id_fails_the_query() {
    let mut q = query();
    q.list = Some("nope".into());
    assert!(matches!(build_query_pipeline(oid(1), &q), Err(Error::ParseObjectID(_))));
    assert!(matches!(build_metrics_pipeline(oid(1), &q), Err(Error::ParseObjectID(_))));
}

#[test]
fn metrics_query() {
    let mut q = query();
    q.search_text = Some("x".into());
    assert_eq!(
        build_metrics_pipeline(oid(1), &q).unwrap(),
        vec![Stage::Search { user: oid(1), list: None, text: Some("x".into()), fuzzy: None }, Stage::CountCompleted]
    );
}

#[test]
fn completing_and_undoing() {
    assert_eq!(completion_change(None, true, 5), Ok(Some(5)));
    assert_eq!(completion_change(Some(5), false, 6), Ok(None));
    assert_eq!(completion_change(Some(5), true, 6), Err(CompletionRefused::AlreadyCompleted));
    assert_eq!(completion_change(None, false, 6), Err(CompletionRefused::NotCompleted));
}

#[test]
fn positions() {
    assert_eq!(position_after(None), 0);
    assert_eq!(position_after(Some(7)), 8);
    let upd = ResourceUpdate { list: Some(oid(3)), url: None, title: None, description: None, tags: None, updated_at: None };
    assert!(moves_to_other_list(&oid(2), &upd));
    assert!(!moves_to_other_list(&oid(3), &upd));
    assert_eq!(import_positions(4, 3), vec![5, 6, 7]);
    assert_eq!(import_positions(0, 0), Vec::<i32>::new());
}

#[test]
fn creating_resources() {
    let body = ResourceCreate {
        list: "x".into(),
        url: "https://a.com".into(),
        title: Some("A".into()),
        description: None,
        thumbnail: None,
        tags: Some(vec!["B".into(), " b".into()]),
    };
    let url = parse_url("https://a.com").unwrap();
    let r = new_resource(body, oid(1), oid(2), &url, 4, 99).unwrap();
    assert_eq!(r.url, "https://a.com/");
    assert_eq!(r.tags, vec!["b".to_string()]);
    assert_eq!((r.position, r.created_at, r.updated_at), (4, 99, 99));
}

fn list() -> List {
    List {
        id: Some(oid(2)),
        user: oid(1),
        title: "T".into(),
        slug: "my-list".into(),
        description: None,
        tags: vec![],
        is_public: false,
        fork: None,
        created_at: 0,
        updated_at: 0,
        last_activity_at: None,
        archived_at: None,
    }
}

#[test]
fn imported_resources() {
    let url = parse_url("http://b.org/x/").unwrap();
    let r = imported_resource(&list(), &url, 9, 50);
    assert_eq!(r.url, "http://b.org/x");
    assert_eq!((r.user, r.list, r.position), (oid(1), oid(2), 9));
    assert!(r.title.is_none());
    let p = JobPayload { list: "l".into(), urls: vec!["u".into()] };
    assert_eq!(p.urls.len(), 1);
}

#[test]
fn feed_service() {
    let rss = RSS::new("KEY".into());
    assert_eq!(rss.base_url, "https://api.rssapi.net/v1/KEY");
    assert_eq!(rss.endpoint("get"), "https://api.rssapi.net/v1/KEY/get");
    let url = parse_url("https://feed.io/rss").unwrap();
    let q = RSS::entries_query(&url);
    assert_eq!(q[0], ("url".to_string(), "https://feed.io/rss".to_string()));
    assert_eq!(q[1], ("limit".to_string(), "10".to_string()));
    assert_eq!(q[2], ("sort".to_string(), "asc".to_string()));
    let ok: Response<u8> = Response { ok: true, error: None, result: Some(3) };
    assert_eq!(ok.into_result(), Ok(3));
    let bad: Response<u8> = Response { ok: false, error: Some("no".into()), result: None };
    assert_eq!(bad.into_result(), Err(Error::RSSIntegration("no".into())));
    let entry = Entry { title: "E".into(), link: "https://e.com".into(), description: "D".into(), time: "t".into() };
    let url = parse_url(&entry.link).unwrap();
    let r = resource_from_entry(&entry, oid(1), oid(2), &url, Some("th".into()), 7);
    assert_eq!(r.title, Some("E".to_string()));
    assert_eq!(r.description, Some("D".to_string()));
    assert_eq!(r.thumbnail, Some("th".to_string()));
    assert_eq!(r.position, 0);
}

#[test]
fn collecting_results() {
    assert_eq!(collect_results::<u8>(vec![Ok(1), Ok(2)]), Ok(vec![1, 2]));
    assert_eq!(
        collect_results::<u8>(vec![Ok(1), Err(Error::ParseURL), Err(Error::ReadAppData)]),
        Err(Error::ParseURL)
    );
    assert_eq!(collect_results::<u8>(vec![]), Ok(vec![]));
}

#[test]
fn scraping_pages() {
    let html = r#"<html><head><title>Tag title</title>
        <meta property="og:title" content="OG title">
        <meta name="description" content="ignored">
        <meta property="og:image">
        <meta property="og:image" content="second.png">
        <meta property="og:description" content="OG desc">
        </head><body></body></html>"#;
    let page = scrape_page(html);
    assert_eq!(page.tag_title, Some("Tag title".to_string()));
    assert_eq!(page.title, Some("OG title".to_string()));
    assert_eq!(page.description, Some("OG desc".to_string()));
    assert_eq!(page.thumbnail, None);
    assert!(needs_fallback(&page));
    let linkish = LinkishResponse { title: Some("L".into()), description: Some("LD".into()), image: Some("l.png".into()) };
    let m = website_metadata(page.clone(), Some(linkish));
    assert_eq!(
        m,
        WebsiteMetadata {
            can_resolve: true,
            title: Some("OG title".into()),
            description: Some("OG desc".into()),
            thumbnail: Some("l.png".into()),
        }
    );
    let bare = scrape_page("<title>Only</title>");
    let m = website_metadata(bare, None);
    assert_eq!(m.title, Some("Only".to_string()));
    assert_eq!(m.thumbnail, None);
    assert_eq!(WebsiteMetadata::default().can_resolve, false);
}

fn full_user() -> User {
    User {
        id: None,
        password: String::new(),
        email: "e".into(),
        slug: "s".into(),
        name: "n".into(),
        avatar: None,
        google_id: None,
        verification_token: Some("VT".into()),
        password_reset_token: Some("RT".into()),
        created_at: 0,
        updated_at: 0,
        verified_at: None,
        locked_at: None,
        verification_token_set_at: None,
        password_reset_token_set_at: None,
        subscription: None,
    }
}

#[test]
fn email_links() {
    let u = full_user();
    assert_eq!(confirm_email_link("https://api.listas.io", &u), "https://api.listas.io/users/verification/VT");
    assert_eq!(password_reset_email_link("https://listas.io", &u), "https://listas.io/password-reset?token=RT");
    assert_eq!(subscription_removed_link(&list()), "https://listas.io/list/my-list/integrations");
}

#[test]
fn subscription_copies() {
    let src = Resource {
        id: Some(oid(7)),
        user: oid(1),
        list: oid(2),
        url: "https://x.io/".into(),
        title: Some("X".into()),
        position: 1,
        description: Some("d".into()),
        thumbnail: None,
        tags: vec!["t".into()],
        html: Some("h".into()),
        text: None,
        author: None,
        length: Some(3),
        publisher: None,
        created_at: 0,
        updated_at: 0,
        completed_at: Some(1),
        populated_at: None,
    };
    let integration = Integration {
        id: Some(oid(8)),
        user: oid(3),
        list: oid(4),
        kind: Kind::ListasSubscription,
        created_at: 0,
        updated_at: 0,
        rss: None,
        listas_subscription: None,
    };
    let c = subscription_copy(&src, &integration, 12, 100);
    assert_eq!((c.user, c.list, c.position), (oid(3), oid(4), 12));
    assert_eq!(c.tags, src.tags);
    assert_eq!(c.completed_at, None);
    assert_eq!(c.html, None);
}

#[test]
fn first_form_models() {
    let body = ListCreate { title: "T".into(), description: None, tags: Some(vec![" X ".into(), "x".into()]) };
    let l = FirstList::new_at(body, oid(1), 3);
    assert_eq!(l.tags, vec!["x".to_string()]);
    assert_eq!((l.created_at, l.updated_at), (3, 3));
    let a = Auth0User { email: "e".into(), user_id: "auth0|1".into(), name: "n".into(), nickname: "k".into(), picture: "p".into() };
    let u = FirstUser::new_at(UserCreate::from_auth0(a), 5);
    assert_eq!(u.external_id, "auth0|1");
    let now: DateTime = 5;
    assert_eq!(u.updated_at, now);
}

#[test]
fn moving_resources() {
    let hex1 = "010101010101010101010101".to_string();
    let hex5 = "050505050505050505050505".to_string();
    let body = PositionUpdate { list: "020202020202020202020202".to_string(), previus: Some(hex5.clone()) };
    let plan = position_plan(oid(9), oid(1), &body).unwrap();
    assert_eq!(plan.list, oid(2));
    assert_eq!(position_after_exists(&plan, false).unwrap(), PositionAction::NotFound);
    assert_eq!(position_after_exists(&plan, true).unwrap(), PositionAction::LookupPrevious(oid(5)));
    assert_eq!(position_after_lookup(&plan, None), PositionAction::NotFound);
    let expected = PositionShift {
        resource: oid(9),
        position: 4,
        filter: ShiftFilter { not_id: oid(9), user: oid(1), list: oid(2), min_position: 4 },
        increment: 1,
    };
    assert_eq!(position_after_lookup(&plan, Some(3)), PositionAction::Apply(expected));
    assert_eq!(position_shift(oid(9), oid(1), oid(2), Some(3)), expected);

    let top = PositionUpdate { list: hex1.clone(), previus: None };
    let plan = position_plan(oid(9), oid(1), &top).unwrap();
    match position_after_exists(&plan, true).unwrap() {
        PositionAction::Apply(s) => {
            assert_eq!(s.position, 0);
            assert_eq!(s.filter.min_position, 0);
            assert_eq!(s.filter.list, oid(1));
        }
        other => panic!("unexpected {:?}", other),
    }

    let bad_previous = PositionUpdate { list: hex1, previus: Some("zz".to_string()) };
    let plan = position_plan(oid(9), oid(1), &bad_previous).unwrap();
    assert!(matches!(position_after_exists(&plan, true), Err(Error::ParseObjectID(_))));
    let bad_list = PositionUpdate { list: "nope".to_string(), previus: None };
    assert!(matches!(position_plan(oid(9), oid(1), &bad_list), Err(Error::ParseObjectID(_))));
}

#[test]
fn metrics_and_list_ownership() {
    assert_eq!(first_metric(&vec![]), None);
    let m = Metric { total: 5, completed: 2 };
    assert_eq!(first_metric(&vec![m, Metric { total: 1, completed: 1 }]), Some(m));
    assert!(list_accepts_resource(&Some(list()), &oid(1)));
    assert!(!list_accepts_resource(&Some(list()), &oid(7)));
    assert!(!list_accepts_resource(&None, &oid(1)));
}

fn d(pairs: Vec<(&str, Bson)>) -> Document {
    Document { entries: pairs.into_iter().map(|(k, v)| (k.to_string(), v)).collect() }
}

fn t(s: &str) -> Bson {
    Bson::String(s.to_string())
}

#[test]
fn search_stages_in_database_form() {
    let fuzzy = Fuzzy { max_edits: 2, prefix_length: 3 };
    let search = Stage::Search { user: oid(1), list: Some(oid(2)), text: Some("rust".into()), fuzzy: Some(fuzzy) };
    let equals = |path: &str, id: ObjectId| {
        Bson::Document(d(vec![("equals", Bson::Document(d(vec![("path", t(path)), ("value", Bson::ObjectId(id))])))]))
    };
    let text = Bson::Document(d(vec![(
        "text",
        Bson::Document(d(vec![
            ("query", t("rust")),
            ("path", Bson::Array(vec![t("title"), t("description"), t("tags")])),
            ("fuzzy", Bson::Document(d(vec![("maxEdits", Bson::Int32(2)), ("prefixLength", Bson::Int32(3))]))),
        ])),
    )]));
    assert_eq!(
        stage_document(&search),
        d(vec![(
            "$search",
            Bson::Document(d(vec![
                ("index", t("search")),
                (
                    "compound",
                    Bson::Document(d(vec![
                        ("filter", Bson::Array(vec![equals("user", oid(1)), equals("list", oid(2))])),
                        ("must", Bson::Array(vec![text])),
                    ])),
                ),
            ])),
        )])
    );
    assert_eq!(
        stage_document(&Stage::MatchCompleted(true)),
        d(vec![("$match", Bson::Document(d(vec![("completed_at", Bson::Document(d(vec![("$ne", Bson::Null)])))])))])
    );
    assert_eq!(
        stage_document(&Stage::Sort(SortKey::CompletedAtDesc)),
        d(vec![("$sort", Bson::Document(d(vec![("completed_at", Bson::Int32(-1))])))])
    );
    assert_eq!(stage_document(&Stage::Skip(5)), d(vec![("$skip", Bson::Int32(5))]));
    assert_eq!(stage_document(&Stage::Limit(3_000_000_000)), d(vec![("$limit", Bson::Int64(3_000_000_000))]));
    let count = stage_document(&Stage::CountCompleted);
    let cond = Bson::Document(d(vec![(
        "$cond",
        Bson::Array(vec![
            Bson::Document(d(vec![("$eq", Bson::Array(vec![t("$completed_at"), Bson::Null]))])),
            Bson::Int32(0),
            Bson::Int32(1),
        ]),
    )]));
    assert_eq!(
        count,
        d(vec![(
            "$group",
            Bson::Document(d(vec![
                ("_id", Bson::Null),
                ("total", Bson::Document(d(vec![("$sum", Bson::Int32(1))]))),
                ("completed", Bson::Document(d(vec![("$sum", cond)]))),
            ])),
        )])
    );
    let docs = pipeline_documents(&vec![Stage::Skip(1), Stage::Limit(2)]);
    assert_eq!(docs, vec![d(vec![("$skip", Bson::Int32(1))]), d(vec![("$limit", Bson::Int32(2))])]);
}
