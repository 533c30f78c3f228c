use lamprey_backend::admin::{admin_role, gc_targets, GcCommand, GcTarget, BROADCAST_PAGE_SIZE};
use lamprey_backend::emoji::{lookup_view, owner_room, EmojiOwner};
use lamprey_backend::error::Error;
use lamprey_backend::features::server_features;
use lamprey_backend::frontend::{
    asset_path, config_script, insert_config_script, insert_og_tags, invite_title, make_nonce,
    mime_from_ext, og_tags, serves_raw, InviteTitleTarget,
};
use lamprey_backend::inbox::{ack_plan, distinct_ids};
use lamprey_backend::pagination::{
    page_cursor, page_step, search_limit, PageStep, Pagination, PaginationDirection,
    PaginationQuery,
};
use lamprey_backend::rows::{
    DbMembership, DbThreadMember, DbUser, Presence, PresenceStatus, ThreadMembership, UserListFilter,
};
use lamprey_backend::text::{join_strings, split_chars, str_eq};
use lamprey_backend::webhook::{update_with_token, updated_with_token, WebhookRow, WebhookUpdate};

fn db_user() -> DbUser {
    DbUser {
        id: 1,
        version_id: 2,
        parent_id: None,
        name: "ada".to_string(),
        description: None,
        avatar: None,
        banner: None,
        bot: false,
        system: false,
        suspended: None,
        registered_at: None,
        deleted_at: None,
        webhook_channel_id: None,
        webhook_creator_id: None,
        webhook_room_id: None,
        puppet_application_id: None,
        puppet_external_id: None,
        puppet_external_url: None,
        puppet_alias_id: None,
    }
}

#[test]
fn mime_from_ext_by_last_dot() {
    assert_eq!(mime_from_ext("index.html"), "text/html");
    assert_eq!(mime_from_ext("assets/app.min.js"), "application/javascript");
    assert_eq!(mime_from_ext("style.css"), "text/css");
    assert_eq!(mime_from_ext("a.wasm"), "application/wasm");
    assert_eq!(mime_from_ext("logo.svg"), "image/svg+xml");
    assert_eq!(mime_from_ext("logo.png"), "image/png");
    assert_eq!(mime_from_ext("photo.jpg"), "image/jpeg");
    assert_eq!(mime_from_ext("favicon.ico"), "image/x-icon");
    assert_eq!(mime_from_ext("photo.jpeg"), "application/octet-stream");
    assert_eq!(mime_from_ext("README"), "application/octet-stream");
    assert_eq!(mime_from_ext("html"), "text/html");
    assert_eq!(mime_from_ext("archive.tar.gz"), "application/octet-stream");
}

#[test]
fn asset_paths() {
    assert_eq!(asset_path("/"), "index.html");
    assert_eq!(asset_path(""), "index.html");
    assert_eq!(asset_path("//assets/app.js"), "assets/app.js");
    assert_eq!(asset_path("favicon.ico"), "favicon.ico");
    assert!(serves_raw("assets/app.js"));
    assert!(!serves_raw("index.html"));
}

#[test]
fn invite_pages() {
    assert_eq!(invite_title(&InviteTitleTarget::Room("cats".to_string())), "you have been invited to cats");
    assert_eq!(invite_title(&InviteTitleTarget::Gdm("pals".to_string())), "you have been invited to pals");
    assert_eq!(invite_title(&InviteTitleTarget::Server), "you have been invited to a server");
    assert_eq!(invite_title(&InviteTitleTarget::User("ada".to_string())), "ada sent a friend request");
    let tags = og_tags("hi");
    assert!(tags.starts_with("<meta property=\"og:title\" content=\"hi\">\n"));
    assert!(tags.contains("<meta name=\"twitter:title\" content=\"hi\">"));
    assert!(tags.ends_with("<meta name=\"theme-color\" content=\"#b18cf3\">"));
}

#[test]
fn meta_tags_go_after_the_viewport_line() {
    let page = "<head>\n<meta name=\"viewport\" content=\"x\">\n<title>t</title>\n</head>";
    assert_eq!(
        insert_og_tags(page, "TAGS"),
        "<head>\n<meta name=\"viewport\" content=\"x\">\nTAGS\n<title>t</title>\n</head>"
    );
    assert_eq!(insert_og_tags("<head></head>", "TAGS"), "<head></head>");
    assert_eq!(insert_og_tags("<meta name=\"viewport\">", "TAGS"), "<meta name=\"viewport\">");
}

#[test]
fn config_script_fills_every_placeholder() {
    assert_eq!(config_script("n1", "{}"), "<script nonce=\"n1\">globalThis.ENV = {};</script>");
    let page = "a<!-- VITE_JINJA_PLACEHOLDER:script -->b<!-- VITE_JINJA_PLACEHOLDER:script -->";
    assert_eq!(
        insert_config_script(page, "n", "1"),
        "a<script nonce=\"n\">globalThis.ENV = 1;</script>b<script nonce=\"n\">globalThis.ENV = 1;</script>"
    );
    assert_eq!(insert_config_script("plain", "n", "1"), "plain");
}

#[test]
fn nonces_are_sixteen_random_bytes() {
    let a = make_nonce();
    let b = make_nonce();
    // 16 bytes in padded base64: 24 characters, the last two padding
    assert_eq!(a.len(), 24);
    assert!(a.ends_with("=="));
    assert_ne!(a, b);
}

#[test]
fn pagination_queries() {
    let q: PaginationQuery<u64> = PaginationQuery { from: None, to: None, dir: None, limit: None };
    let p = Pagination::try_from_query(q).ok().unwrap();
    assert_eq!((p.after, p.before, p.dir, p.limit), (0, u64::MAX, PaginationDirection::F, 10));
    let q: PaginationQuery<u64> = PaginationQuery { from: Some(5), to: Some(9), dir: Some(PaginationDirection::B), limit: Some(100) };
    let p = Pagination::try_from_query(q).ok().unwrap();
    assert_eq!((p.after, p.before, p.dir, p.limit), (9, 5, PaginationDirection::B, 100));
    let q: PaginationQuery<u128> = PaginationQuery { from: Some(5), to: None, dir: Some(PaginationDirection::F), limit: Some(101) };
    assert!(matches!(Pagination::try_from_query(q), Err(Error::TooBig)));
}

#[test]
fn reading_lists_page_by_page() {
    assert_eq!(page_step(&vec![1u64, 2, 3], 3), PageStep::Continue(3));
    assert_eq!(page_step(&vec![1u64, 2], 3), PageStep::Stop);
    assert_eq!(page_step(&Vec::<u64>::new(), 3), PageStep::Stop);
    assert_eq!(page_cursor(&vec![4u128, 8]), Some(8));
    assert_eq!(page_cursor(&Vec::<u128>::new()), None);
    assert_eq!(search_limit(None), 10);
    assert_eq!(search_limit(Some(7)), 7);
    assert_eq!(search_limit(Some(500)), 100);
    assert_eq!(BROADCAST_PAGE_SIZE, 1024);
}

#[test]
fn error_statuses_and_messages() {
    assert_eq!(Error::NotFound.get_status(), 404);
    assert_eq!(Error::TooBig.get_status(), 413);
    assert_eq!(Error::NotModified.get_status(), 304);
    assert_eq!(Error::Unimplemented.get_status(), 501);
    assert_eq!(Error::CantOverwrite.get_status(), 409);
    assert_eq!(Error::Internal("x".to_string()).get_status(), 500);
    assert_eq!(Error::BadStatic("nope".to_string()).message(), "bad request: nope");
    assert_eq!(Error::MissingPermissions.message(), "forbidden");
    assert_eq!(Error::ParseInt("invalid digit found in string".to_string()).message(), "parse int error: invalid digit found in string");
    match Error::Sqlx("db down".to_string()).fake_clone() {
        Error::GenericError(m) => assert_eq!(m, "sqlx error: db down"),
        _ => panic!("expected a generic error"),
    }
    assert!(matches!(Error::NotFound.fake_clone(), Error::NotFound));
    match Error::BadRequest("why".to_string()).fake_clone() {
        Error::BadRequest(m) => assert_eq!(m, "why"),
        _ => panic!("expected the same error"),
    }
}

#[test]
fn advertised_features() {
    let f = server_features(1024, &vec!["discord".to_string(), "github".to_string()]);
    assert!(f.registration.is_some() && f.email.is_some() && f.url_embed.is_some());
    assert!(f.captcha.is_none() && f.voice.is_none() && f.experiments.is_none());
    assert_eq!(f.media.unwrap().max_size, 1024);
    let providers = f.oauth.unwrap().providers;
    assert_eq!(providers.len(), 2);
    assert_eq!(providers[1].id, "github");
    assert_eq!(providers[1].name, "github");
}

#[test]
fn thread_member_rows() {
    let row = DbThreadMember { user_id: 1, channel_id: 2, membership: DbMembership::Ban, joined_at: 3 };
    let m = row.into_member();
    assert_eq!((m.user_id, m.thread_id, m.membership, m.joined_at), (1, 2, ThreadMembership::Leave, 3));
    let row = DbThreadMember { user_id: 1, channel_id: 2, membership: DbMembership::Join, joined_at: 3 };
    assert_eq!(row.into_member().membership, ThreadMembership::Join);
}

#[test]
fn user_rows() {
    let mut u = db_user();
    u.webhook_channel_id = Some(5);
    u.webhook_creator_id = Some(6);
    u.puppet_application_id = Some(7);
    u.puppet_external_id = Some("ext".to_string());
    u.puppet_external_url = Some("HTTPS://Example.com".to_string());
    let r = u.into_record();
    let w = r.webhook.unwrap();
    assert_eq!((w.room_id, w.channel_id, w.creator_id), (None, 5, 6));
    let p = r.puppet.unwrap();
    assert_eq!(p.owner_id, 7);
    assert_eq!(p.external_id, "ext");
    assert_eq!(p.external_url, Some("https://example.com/".to_string()));
    let mut bad = db_user();
    bad.puppet_application_id = Some(7);
    bad.puppet_external_id = Some("ext".to_string());
    bad.puppet_external_url = Some("not a url".to_string());
    assert_eq!(bad.into_record().puppet.unwrap().external_url, None);
    let mut half = db_user();
    half.webhook_channel_id = Some(5);
    let r = half.into_record();
    assert!(r.webhook.is_none() && r.puppet.is_none());
    assert_eq!(r.presence, Presence { status: PresenceStatus::Offline });
    assert!(r.emails.is_none() && r.has_mfa.is_none());
}

#[test]
fn user_listing_filters() {
    let guest = db_user();
    let mut registered = db_user();
    registered.registered_at = Some(1);
    let mut bot = db_user();
    bot.bot = true;
    let mut puppet = db_user();
    puppet.puppet_application_id = Some(3);
    for (u, expect) in [
        (&guest, [true, false, false, false, true]),
        (&registered, [false, true, false, false, true]),
        (&bot, [false, false, true, false, false]),
        (&puppet, [false, false, false, true, false]),
    ] {
        let got = [
            u.listed(Some(UserListFilter::Guest)),
            u.listed(Some(UserListFilter::Registered)),
            u.listed(Some(UserListFilter::Bot)),
            u.listed(Some(UserListFilter::Puppet)),
            u.listed(None),
        ];
        assert_eq!(got, expect);
        // the unfiltered listing is exactly the guests and the registered users
        assert_eq!(got[4], got[0] || got[1]);
        assert!(!(got[0] && got[1]));
    }
}

#[test]
fn webhook_edits_with_the_token() {
    let row = || WebhookRow { id: 1, room_id: Some(2), channel_id: 3, creator_id: Some(4), name: "hook".to_string(), avatar: Some(5), token: "tok".to_string() };
    let w = updated_with_token(row(), WebhookUpdate { name: Some("new".to_string()), avatar: Some(None), channel_id: Some(9), rotate_token: false }, "fresh".to_string());
    assert_eq!(w.name, "new");
    assert_eq!(w.avatar, None);
    assert_eq!(w.channel_id, 3);
    assert_eq!(w.token, Some("tok".to_string()));
    let w = updated_with_token(row(), WebhookUpdate { name: None, avatar: None, channel_id: None, rotate_token: true }, "fresh".to_string());
    assert_eq!((w.name.as_str(), w.avatar), ("hook", Some(5)));
    assert_eq!(w.token, Some("fresh".to_string()));
    let w = update_with_token(row(), WebhookUpdate { name: None, avatar: None, channel_id: None, rotate_token: false });
    assert_eq!(w.token, Some("tok".to_string()));
    let w = update_with_token(row(), WebhookUpdate { name: None, avatar: None, channel_id: None, rotate_token: true });
    let t = w.token.unwrap();
    assert_ne!(t, "tok");
    assert_eq!(t.len(), 36);
    assert_eq!(t.as_bytes()[14], b'4');
}

#[test]
fn distinct_ids_keep_first_occurrences() {
    assert_eq!(distinct_ids(&vec![Some(3), None, Some(1), Some(3), None, Some(2), Some(1)]), vec![3, 1, 2]);
    assert!(distinct_ids(&vec![None, None]).is_empty());
}

#[test]
fn emoji_lookups() {
    let room = Some(EmojiOwner::Room { room_id: 4 });
    assert_eq!(owner_room(room), Some(4));
    assert_eq!(owner_room(Some(EmojiOwner::User)), None);
    assert_eq!(lookup_view(room, Some(1), 2, true), (room, Some(1)));
    assert_eq!(lookup_view(room, Some(1), 2, false), (None, None));
    assert_eq!(lookup_view(Some(EmojiOwner::User), Some(2), 2, false), (Some(EmojiOwner::User), Some(2)));
    assert_eq!(lookup_view(Some(EmojiOwner::User), Some(1), 2, true), (None, None));
    assert_eq!(lookup_view(None, Some(2), 2, true), (None, None));
}

#[test]
fn garbage_collection_and_admins() {
    assert_eq!(gc_targets(GcCommand::Media), vec![GcTarget::Media]);
    assert_eq!(gc_targets(GcCommand::RoomAnalytics), vec![GcTarget::RoomAnalytics]);
    assert_eq!(gc_targets(GcCommand::All), vec![GcTarget::Media, GcTarget::Messages, GcTarget::Session, GcTarget::AuditLog, GcTarget::RoomAnalytics]);
    assert_eq!(admin_role(&vec![10, 20, 30]), 20);
}

#[test]
fn text_helpers() {
    assert!(str_eq("abc", "abc"));
    assert!(!str_eq("abc", "abd"));
    let parts = split_chars(&"a,,b".chars().collect(), ',');
    assert_eq!(parts, vec![vec!['a'], vec![], vec!['b']]);
    assert_eq!(join_strings(&vec!["a".to_string(), "b".to_string()], ", "), "a, b");
}

#[test]
fn ack_batches() {
    let plan = ack_plan(&vec![Some(3), None, Some(5), Some(3)]);
    assert_eq!(plan.channels, vec![3, 5]);
    assert!(plan.unknown);
    assert!(plan.writes);
    let plan = ack_plan(&vec![Some(9)]);
    assert_eq!(plan.channels, vec![9]);
    assert!(!plan.unknown);
    assert!(plan.writes);
    let plan = ack_plan(&vec![]);
    assert!(plan.channels.is_empty());
    assert!(!plan.unknown);
    assert!(!plan.writes);
}
