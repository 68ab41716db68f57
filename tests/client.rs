use soundboard::assets::{is_page_route, resource_route};
use soundboard::bridge::{Pending, Reply, Request, SenderTypeServer, SenderTypeUi};
use soundboard::client::{error_message, file_url, reply_failure, resource_url, Error};
use soundboard::error::Error as Kind;
use soundboard::path::{file_name, is_metadata_file, join};
use soundboard::resource::{Files, Resource};
use soundboard::text::{starts_with, text_eq};
use soundboard::ui::{copy_resources, sort_by_time, UiEffect, UiState};

fn res(title: &str, t: u64) -> Resource {
    Resource {
        title: title.to_string(),
        audio_file: format!("files/{title}.wav"),
        time_stamp: t,
    }
}

#[test]
fn messages_for_every_kind() {
    assert_eq!(error_message("Arguments"), "The user provided arguments are malformed");
    assert_eq!(error_message("FileOpen"), "A file could not be found or opened");
    assert_eq!(error_message("AlreadyExists"), "A file with that name already exists");
    assert_eq!(error_message("InvalidFileType"), "An uploaded file has an invalid type");
    assert_eq!(error_message("Network"), "Could not connect to server");
    assert_eq!(error_message("InvalidFormat"), "Invalid file format");
    assert_eq!(error_message("NothingFound"), "No matching results");
    assert_eq!(error_message("Conversion"), "Conversion error, decoding, ...");
    let unknown = "An unknown error has occurred.\nTry refreshing the page!";
    assert_eq!(error_message(""), unknown);
    assert_eq!(error_message("fileopen"), unknown);
    assert_eq!(error_message("\"FileOpen\""), unknown);
    for k in [Kind::Arguments, Kind::Conversion, Kind::NothingFound] {
        assert_ne!(error_message(k.name()), unknown);
    }
}

#[test]
fn request_addresses() {
    assert_eq!(resource_url(), "http://127.0.0.1:5000/api/resource");
    assert_eq!(file_url("files/kick.wav"), "http://127.0.0.1:5000/files/kick.wav");
}

#[test]
fn failed_replies_are_read() {
    assert_eq!(reply_failure(400, "\"AlreadyExists\""), Error::Custom("AlreadyExists".to_string()));
    assert_eq!(reply_failure(404, ""), Error::Custom("NothingFound".to_string()));
    assert_eq!(reply_failure(500, ""), Error::Custom(String::new()));
    assert_eq!(reply_failure(502, "Bad gateway"), Error::Custom("Bad gateway".to_string()));
    assert_eq!(reply_failure(400, "\""), Error::Custom("\"".to_string()));
    assert_eq!(Error::from("boom".to_string()), Error::Custom("boom".to_string()));
}

#[test]
fn commands_become_requests() {
    match SenderTypeServer::GetResources.into_request() {
        (Request::ListResources(u), Pending::Listing) => {
            assert_eq!(u, "http://127.0.0.1:5000/api/resource")
        }
        other => panic!("unexpected {:?}", other),
    }
    let files = Files {
        title: "kick".to_string(),
        audio_data: "UklGRg==".to_string(),
    };
    match SenderTypeServer::AddResource(vec![res("a", 1)], files.clone()).into_request() {
        (Request::AddResource(u, f), Pending::Adding(known)) => {
            assert_eq!(u, "http://127.0.0.1:5000/api/resource");
            assert_eq!(f, files);
            assert_eq!(known, vec![res("a", 1)]);
        }
        other => panic!("unexpected {:?}", other),
    }
    match SenderTypeServer::DownloadAudio("files/a.wav".to_string()).into_request() {
        (Request::FetchFile(u), Pending::Fetching) => {
            assert_eq!(u, "http://127.0.0.1:5000/files/a.wav")
        }
        other => panic!("unexpected {:?}", other),
    }
}

#[test]
fn each_catalog_fetch_gives_one_whole_event() {
    let snapshots: Vec<Vec<Resource>> = (0..5u64)
        .map(|n| (0..n).map(|i| res(&format!("c{i}"), i)).collect())
        .collect();
    let mut events = Vec::new();
    for snap in &snapshots {
        let (_, pending) = SenderTypeServer::GetResources.into_request();
        let outcome = Ok(Reply::Resources(snap.clone()));
        assert!(pending.accepts_outcome(&outcome));
        events.push(pending.complete(outcome));
    }
    assert_eq!(events.len(), 5);
    for (ev, snap) in events.iter().zip(&snapshots) {
        match ev {
            SenderTypeUi::Resources(v) => assert_eq!(v, snap),
            other => panic!("unexpected {:?}", other),
        }
    }
}

#[test]
fn added_resource_is_appended() {
    let (_, pending) = SenderTypeServer::AddResource(
        vec![res("a", 1), res("b", 2)],
        Files::default(),
    )
    .into_request();
    match pending.complete(Ok(Reply::Created(res("c", 3)))) {
        SenderTypeUi::Resources(v) => assert_eq!(v, vec![res("a", 1), res("b", 2), res("c", 3)]),
        other => panic!("unexpected {:?}", other),
    }
}

#[test]
fn missing_file_gives_single_failure() {
    let (_, pending) = SenderTypeServer::DownloadAudio("files/none.wav".to_string()).into_request();
    let outcome = Err(reply_failure(404, ""));
    assert!(pending.accepts_outcome(&outcome));
    match pending.complete(outcome) {
        SenderTypeUi::Error(Error::Custom(t)) => {
            assert_eq!(t, "NothingFound");
            assert_eq!(error_message(&t), "No matching results");
        }
        other => panic!("unexpected {:?}", other),
    }
}

#[test]
fn fetched_bytes_are_played() {
    let (_, pending) = SenderTypeServer::DownloadAudio("files/a.wav".to_string()).into_request();
    match pending.complete(Ok(Reply::Bytes(vec![1, 2, 3]))) {
        SenderTypeUi::PlayAudio(b) => assert_eq!(b, vec![1, 2, 3]),
        other => panic!("unexpected {:?}", other),
    }
}

#[test]
fn mismatched_replies_are_not_accepted() {
    assert!(!Pending::Listing.accepts_outcome(&Ok(Reply::Bytes(vec![]))));
    assert!(!Pending::Fetching.accepts_outcome(&Ok(Reply::Created(res("a", 1)))));
    assert!(!Pending::Adding(vec![]).accepts_outcome(&Ok(Reply::Resources(vec![]))));
    assert!(Pending::Listing.accepts_outcome(&Err(Error::Http("refused".to_string()))));
}

#[test]
fn sort_is_by_time_and_stable() {
    let v = vec![res("d", 5), res("a", 1), res("b", 5), res("c", 3), res("e", 1)];
    let sorted = sort_by_time(v);
    let titles: Vec<&str> = sorted.iter().map(|r| r.title.as_str()).collect();
    assert_eq!(titles, vec!["a", "e", "c", "d", "b"]);
    assert!(sort_by_time(Vec::new()).is_empty());
}

#[test]
fn ui_takes_in_events() {
    let mut ui = UiState::new();
    assert!(matches!(ui.apply(SenderTypeUi::Nothing), UiEffect::Idle));
    assert!(ui.resources.is_empty());
    let effect = ui.apply(SenderTypeUi::Resources(vec![res("late", 9), res("early", 2)]));
    assert!(matches!(effect, UiEffect::Repaint));
    assert_eq!(ui.resources, vec![res("early", 2), res("late", 9)]);
    match ui.apply(SenderTypeUi::PlayAudio(vec![7])) {
        UiEffect::Play(b) => assert_eq!(b, vec![7]),
        other => panic!("unexpected {:?}", other),
    }
    let effect = ui.apply(SenderTypeUi::Error(Error::Custom("Network".to_string())));
    assert!(matches!(effect, UiEffect::Repaint));
    assert_eq!(ui.error_modal, Some(Error::Custom("Network".to_string())));
    assert_eq!(ui.resources.len(), 2);
    ui.close_error();
    assert_eq!(ui.error_modal, None);
    let effect = ui.apply(SenderTypeUi::Resources(vec![res("only", 1)]));
    assert!(matches!(effect, UiEffect::Repaint));
    assert_eq!(ui.resources, vec![res("only", 1)]);
}

#[test]
fn upload_needs_title_and_payload() {
    assert!(!Files::default().is_complete());
    let mut f = Files::default();
    f.title = "kick".to_string();
    assert!(!f.is_complete());
    f.audio_data = "UklGRg==".to_string();
    assert!(f.is_complete());
}

#[test]
fn paths_and_names() {
    assert_eq!(join("files", "a.wav"), "files/a.wav");
    assert_eq!(join("files/", "a.wav"), "files/a.wav");
    assert_eq!(join("", "a.wav"), "a.wav");
    assert_eq!(file_name("kick", "wav"), "kick.wav");
    assert!(is_metadata_file("kick.json"));
    assert!(is_metadata_file("..json"));
    assert!(!is_metadata_file(".json"));
    assert!(!is_metadata_file("kick.JSON"));
    assert!(!is_metadata_file("dir/kick.json"));
    assert!(!is_metadata_file("kick.wav"));
}

#[test]
fn text_comparisons() {
    assert!(text_eq("abc", "abc"));
    assert!(!text_eq("abc", "abd"));
    assert!(!text_eq("abc", "ab"));
    assert!(starts_with("audio/x-wav", "audio/"));
    assert!(!starts_with("image/png", "audio/"));
    assert!(!starts_with("aud", "audio/"));
}

#[test]
fn file_routes() {
    assert_eq!(resource_route("files"), "/files/*file");
    assert_eq!(resource_route("files/"), "/files/*file");
    assert_eq!(resource_route(""), "//*file");
    assert!(is_page_route("about"));
    assert!(is_page_route("docs/intro"));
    assert!(!is_page_route("app.js"));
    assert!(!is_page_route("img/logo.png"));
}

#[test]
fn add_dialog_sends_only_complete_uploads() {
    let mut ui = UiState::new();
    assert!(ui.confirm_add().is_none());
    ui.apply(SenderTypeUi::Resources(vec![res("b", 2), res("a", 1)]));
    ui.open_add();
    assert_eq!(ui.add_modal, Some(Files::default()));
    assert!(ui.confirm_add().is_none());
    assert!(ui.add_modal.is_some());
    if let Some(f) = ui.add_modal.as_mut() {
        f.title = "kick".to_string();
        f.audio_data = "UklGRg==".to_string();
    }
    match ui.confirm_add() {
        Some(SenderTypeServer::AddResource(known, files)) => {
            assert_eq!(known, vec![res("a", 1), res("b", 2)]);
            assert_eq!(files.title, "kick");
            assert_eq!(files.audio_data, "UklGRg==");
        }
        other => panic!("unexpected {:?}", other),
    }
    assert!(ui.add_modal.is_none());
    assert_eq!(ui.resources.len(), 2);
    ui.open_add();
    ui.close_add();
    assert!(ui.add_modal.is_none());
}

#[test]
fn listed_clip_is_fetched_to_play() {
    let mut ui = UiState::new();
    ui.apply(SenderTypeUi::Resources(vec![res("b", 2), res("a", 1)]));
    match ui.play_command(1) {
        Some(SenderTypeServer::DownloadAudio(p)) => assert_eq!(p, "files/b.wav"),
        other => panic!("unexpected {:?}", other),
    }
    assert!(ui.play_command(2).is_none());
}

#[test]
fn resources_are_copied_whole() {
    let v = vec![res("a", 1), res("b", 2)];
    assert_eq!(copy_resources(&v), v);
    assert!(copy_resources(&Vec::new()).is_empty());
}
