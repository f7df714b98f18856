use listas::auth::{strip_bearer, token_from_header, AuthenticationMetadata};
use listas::date::{from_rfc3339, from_ymd, to_rfc3339};
use listas::errors::{Error, MailerError, MongoFailure};
use listas::google::{find_cert, google_cert_for, Cert, GoogleToken};
use listas::models::integration::{Integration, Kind, ListasSubscription, ParseKindError, Rss};
use listas::models::feed_integration::Kind as FeedKind;
use listas::models::list::{next_resource_position, resource_metadata_from, to_private_list, List, ListUpdate, PublicList};
use listas::models::resource::{enrich_update, populate_update, metadata_from_traer, FieldValue, PrivateResource, Resource, ResourceUpdate};
use listas::models::user::{PublicUser, Subscription, User, UserID, UserPublic};
use listas::object_id::ObjectId;
use listas::token::{Claims, TOKEN_LIFETIME_SECONDS};
use listas::traer::{TraerReadResult, TraerReadSomeResult, TraerResponse};

fn oid(n: u8) -> ObjectId {
    ObjectId { bytes: [n; 12] }
}

fn user() -> User {
    User {
        id: Some(oid(1)),
        password: String::new(),
        email: "ana@example.com".to_string(),
        slug: "ana_x1y2z".to_string(),
        name: "Ana".to_string(),
        avatar: Some("a.png".to_string()),
        google_id: None,
        verification_token: Some("vtok".to_string()),
        password_reset_token: None,
        created_at: 1,
        updated_at: 2,
        verified_at: None,
        locked_at: None,
        verification_token_set_at: None,
        password_reset_token_set_at: None,
        subscription: None,
    }
}

fn resource(id: Option<ObjectId>) -> Resource {
    Resource {
        id,
        user: oid(1),
        list: oid(2),
        url: "https://example.com/a/".to_string(),
        title: Some("A".to_string()),
        position: 3,
        description: None,
        thumbnail: None,
        tags: vec!["x".to_string()],
        html: None,
        text: None,
        author: None,
        length: None,
        publisher: None,
        created_at: 10,
        updated_at: 11,
        completed_at: Some(12),
        populated_at: None,
    }
}

#[test]
fn error_codes_table() {
    assert_eq!(Error::ParseURL.get_codes(), (400, 4041));
    assert_eq!(Error::ParseQueryString("q".into()).get_codes(), (400, 4042));
    assert_eq!(Error::ParseObjectID(listas::object_id::ObjectIdError::InvalidHex).get_codes(), (400, 4043));
    let dup = Error::WitherError { mongo: Some(MongoFailure::Command { code: 11000 }), message: String::new() };
    assert_eq!(dup.get_codes(), (400, 4044));
    let other_cmd = Error::WitherError { mongo: Some(MongoFailure::Command { code: 2 }), message: String::new() };
    assert_eq!(other_cmd.get_codes(), (500, 4045));
    let other_mongo = Error::WitherError { mongo: Some(MongoFailure::Other), message: String::new() };
    assert_eq!(other_mongo.get_codes(), (500, 4045));
    assert_eq!(Error::JWT("j".into()).get_codes(), (401, 4015));
    assert_eq!(Error::MissingAuthorizationToken.get_codes(), (401, 4016));
    assert_eq!(Error::GoogleAuthentication.get_codes(), (401, 4017));
    assert_eq!(Error::WitherError { mongo: None, message: String::new() }.get_codes(), (500, 5001));
    assert_eq!(Error::ReadAppData.get_codes(), (500, 5002));
    assert_eq!(Error::MongoError("m".into()).get_codes(), (500, 5003));
    assert_eq!(Error::HashPassword("h".into()).get_codes(), (500, 5004));
    assert_eq!(Error::ContactRSSIntegration("c".into()).get_codes(), (500, 5005));
    assert_eq!(Error::RSSIntegration("r".into()).get_codes(), (500, 5006));
    assert_eq!(Error::SendEmail(MailerError::Canceled).get_codes(), (500, 5007));
    assert_eq!(Error::BuildEmail("b".into()).get_codes(), (500, 5008));
    assert_eq!(Error::SerializeMongoResponse("s".into()).get_codes(), (500, 5009));
}

fn google_token(iss: &str, aud: &str) -> GoogleToken {
    GoogleToken {
        iss: iss.to_string(),
        sub: "1".to_string(),
        azp: "x".to_string(),
        aud: aud.to_string(),
        iat: 0,
        exp: 0,
        hd: None,
        email: None,
        email_verified: Some(true),
        name: None,
        picture: None,
        given_name: None,
        family_name: None,
        locale: None,
    }
}

#[test]
fn google_token_validity() {
    assert!(google_token("accounts.google.com", "client").is_valid(["client"]));
    assert!(google_token("https://accounts.google.com", "client").is_valid(["client"]));
    assert!(!google_token("evil.com", "client").is_valid(["client"]));
    assert!(!google_token("accounts.google.com", "other").is_valid(["client"]));
    assert!(!google_token("accounts.google.com", "").is_valid([""]));
    assert!(!google_token("accounts.google.com", "client").is_valid([""]));
}

#[test]
fn cert_lookup_by_kid() {
    let cert = |kid: &str, n: &str| Cert {
        kid: kid.to_string(),
        e: "AQAB".to_string(),
        kty: "RSA".to_string(),
        alg: "RS256".to_string(),
        n: n.to_string(),
        key_use: "sig".to_string(),
    };
    let certs = vec![cert("a", "1"), cert("b", "2"), cert("b", "3")];
    assert_eq!(find_cert(certs.clone(), "b").unwrap().n, "2");
    assert_eq!(find_cert(certs, "c"), None);
}

#[test]
fn cert_named_by_a_token_header() {
    let cert = |kid: &str, n: &str| Cert {
        kid: kid.to_string(),
        e: "AQAB".to_string(),
        kty: "RSA".to_string(),
        alg: "RS256".to_string(),
        n: n.to_string(),
        key_use: "sig".to_string(),
    };
    let certs = vec![cert("k1", "1"), cert("k2", "2"), cert("k2", "3")];
    let token = "eyJhbGciOiJSUzI1NiIsImtpZCI6ImsyIn0.e30.c2ln";
    assert_eq!(google_cert_for(token, certs.clone()).unwrap().n, "2");
    let unknown = "eyJhbGciOiJSUzI1NiIsImtpZCI6Inp6In0.e30.c2ln";
    assert_eq!(google_cert_for(unknown, certs.clone()), Err(Error::GoogleAuthentication));
    let no_kid = "eyJhbGciOiJSUzI1NiJ9.e30.c2ln";
    assert_eq!(google_cert_for(no_kid, certs.clone()), Err(Error::GoogleAuthentication));
    assert_eq!(google_cert_for("not a token", certs), Err(Error::GoogleAuthentication));
}

#[test]
fn integration_kind_names() {
    assert_eq!(Kind::from_str("rss"), Ok(Kind::Rss));
    assert_eq!(Kind::from_str("listas-subscription"), Ok(Kind::ListasSubscription));
    assert_eq!(Kind::from_str("RSS"), Err(ParseKindError));
    for k in [Kind::Rss, Kind::ListasSubscription] {
        assert_eq!(Kind::from_str(k.as_str()), Ok(k));
    }
    assert_eq!(FeedKind::from_str("follow"), Ok(FeedKind::Follow));
    for k in [FeedKind::RSS, FeedKind::Follow] {
        assert_eq!(FeedKind::from_str(k.as_str()), Ok(k));
    }
}

#[test]
fn bearer_tokens() {
    assert_eq!(strip_bearer("Bearer abc.def"), "abc.def");
    assert_eq!(strip_bearer("Bearer Bearer x"), "x");
    assert_eq!(strip_bearer("xBearer y"), "xy");
    assert_eq!(strip_bearer("Bearer"), "Bearer");
    assert_eq!(token_from_header(None), Err(Error::MissingAuthorizationToken));
    assert_eq!(token_from_header(Some("Bearer t")), Ok("t".to_string()));
}

#[test]
fn authentication_metadata() {
    let none = AuthenticationMetadata::from_token_user(None);
    assert!(!none.is_authenticated && none.user_id.is_none());
    let u = UserPublic { id: "0101010101010101010101ff".into(), email: "e".into(), name: "n".into(), slug: "s".into() };
    let some = AuthenticationMetadata::from_token_user(Some(u.clone()));
    assert!(some.is_authenticated);
    assert_eq!(some.user_id.unwrap().to_hex(), "0101010101010101010101ff");
    assert_eq!(UserID::from_token_user(&u).0.to_hex(), "0101010101010101010101ff");
}

#[test]
fn dates() {
    assert_eq!(to_rfc3339(0), Some("1970-01-01T00:00:00.000Z".to_string()));
    assert_eq!(to_rfc3339(947638923004), Some("2000-01-12T01:02:03.004Z".to_string()));
    assert_eq!(to_rfc3339(i64::MAX), None);
    assert_eq!(from_rfc3339("2000-01-12T01:02:03.004Z"), Ok(947638923004));
    assert!(from_rfc3339("yesterday").is_err());
    assert_eq!(from_ymd("2001-07-08"), Ok(994550400000));
    assert!(from_ymd("2001-13-08").is_err());
}

#[test]
fn claims_and_display() {
    let u = user();
    let c = Claims::issued(&u, 1000, 999);
    assert_eq!(c.exp, 1000 + TOKEN_LIFETIME_SECONDS as usize);
    assert_eq!(c.iat, 999);
    assert_eq!(c.user.id, "010101010101010101010101");
    assert_eq!(c.to_public_user(), c.user);
    let n = Claims::new(&u);
    assert!(n.exp >= n.iat + 604_000);
    assert_eq!(n.user.email, "ana@example.com");
}

#[test]
fn premium() {
    let mut u = user();
    assert!(!u.is_premium());
    u.subscription = Some(Subscription {
        id: "s".into(),
        plan_id: "p".into(),
        checkout_id: "c".into(),
        status: "active".into(),
        updated_at: 0,
        next_bill_at: None,
        cancel_url: None,
        update_url: None,
        cancellation_effective_at: None,
    });
    assert!(u.is_premium());
    u.subscription.as_mut().unwrap().cancellation_effective_at = Some(100);
    assert!(u.is_premium_at(99));
    assert!(!u.is_premium_at(100));
    assert!(!u.is_premium());
    u.subscription.as_mut().unwrap().cancellation_effective_at = Some(i64::MAX);
    assert!(u.is_premium());
}

#[test]
fn password_reset_tokens() {
    let mut u = user();
    let t = u.set_password_reset_token();
    assert_eq!(t.len(), 40);
    assert_eq!(u.password_reset_token, Some(t));
    assert!(u.password_reset_token_set_at.is_some());
    u.unset_password_reset_token();
    assert_eq!(u, user());
}

#[test]
fn passwords() {
    let mut u = user();
    assert!(!u.is_password_match("secret"));
    u.set_password("secret".to_string()).unwrap();
    assert!(u.is_password_match("secret"));
    assert!(!u.is_password_match("Secret"));
    let h = User::hash_password("hunter2".to_string()).unwrap();
    assert_ne!(h, "hunter2");
    assert!(h.starts_with("$2b$12$"));
    assert!(u.password.starts_with("$2b$12$"));
}

#[test]
fn authentication_needs_a_verified_email_and_the_password() {
    let mut u = user();
    u.set_password("secret".to_string()).unwrap();
    assert!(!u.can_authenticate("secret"));
    u.verified_at = Some(5);
    assert!(u.can_authenticate("secret"));
    assert!(!u.can_authenticate("wrong"));
}

#[test]
fn integration_subscriptions_to_cancel() {
    let rss = Integration {
        id: Some(oid(3)),
        user: oid(1),
        list: oid(2),
        kind: Kind::Rss,
        created_at: 1,
        updated_at: 1,
        rss: Some(Rss { url: "https://f.io/feed".to_string(), subscription_id: "sub-9".to_string(), metadata: None }),
        listas_subscription: None,
    };
    assert_eq!(rss.subscription_to_cancel(), Some("sub-9".to_string()));
    let follow = Integration {
        kind: Kind::ListasSubscription,
        rss: None,
        listas_subscription: Some(ListasSubscription { list: oid(4) }),
        ..rss.clone()
    };
    assert_eq!(follow.subscription_to_cancel(), None);
}

#[test]
fn slugs_for_users() {
    assert_eq!(User::create_slug_with("John.Doe@mail.com", "AbC12"), "john_doe_abc12");
    assert_eq!(User::create_slug_with("no-at-sign", "zz999"), "no_at_sign_zz999");
    let s = User::create_slug("Mary Jane@x.io");
    assert!(s.starts_with("mary_jane_"));
    assert_eq!(s.len(), "mary_jane_".len() + 5);
    assert!(s["mary_jane_".len()..].chars().all(|c| c.is_ascii_lowercase() || c.is_ascii_digit()));
}

#[test]
fn public_forms() {
    let p = PublicUser::from(user());
    assert_eq!(p.id, oid(1));
    assert_eq!(p.avatar, Some("a.png".to_string()));
    let r = PrivateResource::from(resource(Some(oid(9))));
    assert_eq!(r.id, oid(9));
    assert_eq!(r.position, 3);
    assert_eq!(r.completed_at, Some(12));
}

#[test]
fn resource_urls() {
    let r = resource(Some(oid(9)));
    assert_eq!(r.get_url().as_str(), "https://example.com/a");
    let mut bad = resource(None);
    bad.url = "nope".to_string();
    assert!(bad.try_get_url().is_none());
}

#[test]
fn updates_sanitize_tags_and_stamp_time() {
    let mut u = ResourceUpdate {
        list: None,
        url: Some("u".into()),
        title: None,
        description: None,
        tags: Some(vec![" A ".into(), "a".into(), "".into()]),
        updated_at: None,
    };
    ResourceUpdate::apply_at(&mut u, 77);
    assert_eq!(u.tags, Some(vec!["a".to_string()]));
    assert_eq!(u.updated_at, Some(77));
    assert_eq!(u.url, Some("u".to_string()));
    let mut l = ListUpdate { title: Some("t".into()), description: None, tags: None, is_public: Some(true), updated_at: None };
    ListUpdate::new(&mut l);
    assert_eq!(l.tags, None);
    assert!(l.updated_at.is_some());
    assert_eq!(l.is_public, Some(true));
}

fn list() -> List {
    List {
        id: Some(oid(2)),
        user: oid(1),
        title: "T".into(),
        slug: "t".into(),
        description: None,
        tags: vec![],
        is_public: true,
        fork: Some(listas::models::list::Fork { list: oid(5), user: oid(6) }),
        created_at: 1,
        updated_at: 2,
        last_activity_at: Some(3),
        archived_at: None,
    }
}

#[test]
fn list_metadata_and_forms() {
    let m = resource_metadata_from(10, 4, Some(resource(Some(oid(3)))), Some(resource(Some(oid(4)))));
    assert_eq!(m.count, 10);
    assert_eq!(m.completed_count, 6);
    assert_eq!(m.last_completed_at, Some(12));
    assert_eq!(m.next.as_ref().unwrap().id, oid(4));
    let p = to_private_list(list(), m, 1, 2, 3);
    assert_eq!(p.id, oid(2));
    assert_eq!(p.fork.unwrap().list, oid(5));
    assert_eq!((p.forks_count, p.subscriptions_count, p.likes_count), (1, 2, 3));
    let pl = PublicList::from(list());
    assert_eq!(pl.fork.unwrap().user, oid(6));
    assert_eq!(next_resource_position(None), 0);
    assert_eq!(next_resource_position(Some(41)), 42);
}

#[test]
fn traer_answers() {
    let read = TraerReadResult {
        title: Some("T".into()),
        description: None,
        html: Some("<p>".into()),
        text: None,
        length: Some(12),
        author: Some("Au".into()),
        publisher: None,
        image: Some("i.png".into()),
        logo: None,
    };
    let enriched = enrich_update(read.clone());
    assert_eq!(
        enriched,
        vec![
            ("html".to_string(), FieldValue::Text("<p>".into())),
            ("length".to_string(), FieldValue::Integer(12)),
            ("author".to_string(), FieldValue::Text("Au".into())),
        ]
    );
    let fields = populate_update(read);
    assert_eq!(
        fields,
        vec![
            ("title".to_string(), FieldValue::Text("T".into())),
            ("thumbnail".to_string(), FieldValue::Text("i.png".into())),
            ("html".to_string(), FieldValue::Text("<p>".into())),
            ("length".to_string(), FieldValue::Integer(12)),
            ("author".to_string(), FieldValue::Text("Au".into())),
        ]
    );
    let slim = TraerReadSomeResult { title: Some("T".into()), description: Some("D".into()), author: None, publisher: None, image: None, logo: None };
    let ok = TraerResponse { success: true, status: 200, data: slim.clone() };
    let md = metadata_from_traer(ok).unwrap();
    assert_eq!(md.description, Some("D".to_string()));
    assert_eq!(metadata_from_traer(TraerResponse { success: false, status: 500, data: slim.clone() }), None);
    assert_eq!(TraerResponse { success: true, status: 200, data: 5 }.into_content(), Some(5));
    assert_eq!(TraerResponse { success: false, status: 404, data: 5 }.into_content(), None);
}
