use listas::demo::{demo_list, demo_resource};
use listas::document::{create_discover_query, create_find_populated_query, doc1, Bson, Document};
use listas::object_id::ObjectId;

fn text(s: &str) -> Bson {
    Bson::String(s.to_string())
}

fn doc(pairs: Vec<(&str, Bson)>) -> Document {
    Document { entries: pairs.into_iter().map(|(k, v)| (k.to_string(), v)).collect() }
}

fn query() -> Document {
    doc1("is_public", Bson::Boolean(true))
}

#[test]
fn discover_query_stages() {
    let p = create_discover_query(query(), 20, 10);
    assert_eq!(p.len(), 9);
    assert_eq!(p[0], doc(vec![("$match", Bson::Document(query()))]));
    let inner = vec![
        Bson::Document(doc(vec![(
            "$match",
            Bson::Document(doc(vec![(
                "$expr",
                Bson::Document(doc(vec![("$eq", Bson::Array(vec![text("$list"), text("$$list")]))])),
            )])),
        )])),
        Bson::Document(doc(vec![("$sort", Bson::Document(doc(vec![("created_at", Bson::Int32(-1))])))])),
        Bson::Document(doc(vec![("$limit", Bson::Int32(1))])),
    ];
    assert_eq!(
        p[1],
        doc(vec![(
            "$lookup",
            Bson::Document(doc(vec![
                ("from", text("resources")),
                ("as", text("resources")),
                ("let", Bson::Document(doc(vec![("list", text("$_id"))]))),
                ("pipeline", Bson::Array(inner)),
            ])),
        )])
    );
    assert_eq!(
        p[2],
        doc(vec![(
            "$match",
            Bson::Document(doc(vec![("resources", Bson::Document(doc(vec![("$ne", Bson::Array(vec![]))])))])),
        )])
    );
    assert_eq!(p[3], doc(vec![("$sort", Bson::Document(doc(vec![("created_at", Bson::Int32(-1))])))]));
    assert_eq!(p[4], doc(vec![("$skip", Bson::Int64(20))]));
    assert_eq!(p[5], doc(vec![("$limit", Bson::Int64(10))]));
    assert_eq!(
        p[6],
        doc(vec![(
            "$lookup",
            Bson::Document(doc(vec![
                ("from", text("users")),
                ("localField", text("user")),
                ("foreignField", text("_id")),
                ("as", text("user")),
            ])),
        )])
    );
    assert_eq!(p[7], doc(vec![("$unwind", text("$user"))]));
    let user = doc(vec![
        ("id", text("$user._id")),
        ("slug", text("$user.slug")),
        ("name", text("$user.name")),
        ("avatar", text("$user.avatar")),
    ]);
    assert_eq!(
        p[8],
        doc(vec![(
            "$project",
            Bson::Document(doc(vec![
                ("_id", Bson::Boolean(false)),
                ("id", text("$_id")),
                ("title", text("$title")),
                ("description", text("$description")),
                ("tags", text("$tags")),
                ("created_at", text("$created_at")),
                ("slug", text("$slug")),
                ("user", Bson::Document(user)),
            ])),
        )])
    );
}

#[test]
fn populated_query_stages() {
    let p = create_find_populated_query(query());
    assert_eq!(p.len(), 8);
    assert_eq!(p[0], doc(vec![("$match", Bson::Document(query()))]));
    let first_match = doc(vec![
        (
            "$expr",
            Bson::Document(doc(vec![("$eq", Bson::Array(vec![text("$list"), text("$$list")]))])),
        ),
        ("completed_at", Bson::Null),
    ]);
    let inner = vec![
        Bson::Document(doc(vec![("$match", Bson::Document(first_match))])),
        Bson::Document(doc(vec![("$sort", Bson::Document(doc(vec![("position", Bson::Int32(1))])))])),
        Bson::Document(doc(vec![("$limit", Bson::Int32(1))])),
    ];
    assert_eq!(
        p[1],
        doc(vec![(
            "$lookup",
            Bson::Document(doc(vec![
                ("from", text("resources")),
                ("as", text("resources")),
                ("let", Bson::Document(doc(vec![("list", text("$_id"))]))),
                ("pipeline", Bson::Array(inner)),
            ])),
        )])
    );
    assert_eq!(p[2], doc(vec![("$sort", Bson::Document(doc(vec![("created_at", Bson::Int32(1))])))]));
    for (i, from, field) in [(3usize, "users", "fork.user"), (5usize, "lists", "fork.list")] {
        assert_eq!(
            p[i],
            doc(vec![(
                "$lookup",
                Bson::Document(doc(vec![
                    ("from", text(from)),
                    ("localField", text(field)),
                    ("foreignField", text("_id")),
                    ("as", text(field)),
                ])),
            )])
        );
        let path = format!("${}", field);
        assert_eq!(
            p[i + 1],
            doc(vec![(
                "$unwind",
                Bson::Document(doc(vec![
                    ("path", text(&path)),
                    ("preserveNullAndEmptyArrays", Bson::Boolean(true)),
                ])),
            )])
        );
    }
    let fields = [
        "id", "user", "title", "description", "tags", "slug", "is_public", "created_at", "updated_at",
        "archived_at", "fork",
    ];
    let mut project = vec![("_id", Bson::Boolean(false))];
    for f in fields.iter() {
        let value = if *f == "id" { "$_id".to_string() } else { format!("${}", f) };
        project.push((f, Bson::String(value)));
    }
    assert_eq!(p[7], doc(vec![("$project", Bson::Document(doc(project)))]));
}

#[test]
fn demo_data() {
    let user = ObjectId { bytes: [1; 12] };
    let list_id = ObjectId { bytes: [2; 12] };
    let list = demo_list(user, 77);
    assert_eq!(list.title, "To read later");
    assert_eq!(list.slug, "to-read-later");
    assert_eq!(list.description.as_deref(), Some("This is a demo list create automatically by Listas"));
    assert_eq!(list.tags, vec!["tutorial".to_string()]);
    assert!(!list.is_public);
    assert_eq!((list.created_at, list.updated_at), (77, 77));
    assert!(list.id.is_none() && list.fork.is_none() && list.archived_at.is_none());

    let resource = demo_resource(user, list_id, 77);
    assert_eq!(resource.url, "https://collectednotes.com/getlistas/hello-world");
    assert_eq!(resource.title.as_deref(), Some("Hello World — Listas"));
    assert_eq!(resource.position, 0);
    assert_eq!(resource.list, list_id);
    assert_eq!(resource.user, user);
    assert_eq!(resource.tags, vec!["tutorial".to_string()]);
    assert!(resource.completed_at.is_none());
}
