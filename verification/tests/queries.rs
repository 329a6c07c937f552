use retrommo_fetch::error::Error;
use retrommo_fetch::{
    leaderboard_page_outcome, leaderboard_page_url, online_players_outcome, online_players_url,
    player_outcome, player_url, registered_count_outcome, registered_count_url,
    top_players_outcome, top_players_url,
};

#[test]
fn entry_display_form() {
    let body = "[{\"experience\": 500, \"permissions\": 0, \"username\": \"Alice\"}]";
    let page = leaderboard_page_outcome(Some(body)).unwrap();
    assert_eq!(page.len(), 1);
    assert_eq!(page[0].display_string(), "Alice: 500 experience");
}

#[test]
fn entry_display_form_zero_experience() {
    let body = "[{\"experience\":0,\"permissions\":2,\"username\":\"Bob\"}]";
    let page = leaderboard_page_outcome(Some(body)).unwrap();
    assert_eq!(page[0].display_string(), "Bob: 0 experience");
}

#[test]
fn player_decodes_field_for_field() {
    let body = "{\"rank\": 7, \"registeredAt\": \"2020-11-10T05:05:02.000Z\", \"username\": \"Gliss\", \"timePlayed\": 123.5, \"permissions\": 1, \"lifetimeExperience\": 99000}";
    let player = player_outcome(Some(body)).unwrap();
    assert_eq!(player.rank, 7);
    assert_eq!(player.registered_at, "2020-11-10T05:05:02.000Z");
    assert_eq!(player.username, "Gliss");
    assert_eq!(player.time_played, "123.5");
    assert_eq!(player.permissions, 1);
    assert_eq!(player.lifetime_experience, 99000);
}

#[test]
fn player_display_form() {
    let body = "{\"rank\":2,\"registeredAt\":\"2021-01-01T00:00:00.000Z\",\"username\":\"Ada\",\"timePlayed\":4.25,\"permissions\":0,\"lifetimeExperience\":10}";
    let player = player_outcome(Some(body)).unwrap();
    assert_eq!(
        player.display_string(),
        "Username: Ada\nExperience10 (2)\nRegistered: 2021-01-01T00:00:00.000Z, Time Played: 4.25, Permission Rank: 0"
    );
}

#[test]
fn missing_player_is_a_failure_not_a_default() {
    let not_found = player_outcome(Some("Not found"));
    assert!(not_found.is_err());
    let empty_object = player_outcome(Some("{}"));
    assert!(empty_object.is_err());
    let transport = player_outcome(None);
    match transport {
        Err(e) => {
            assert_eq!(e.code, 500);
            assert_eq!(e.message.as_deref(), Some("Failed to get player"));
        }
        Ok(_) => panic!("a missing body must fail"),
    }
}

#[test]
fn player_decode_failure_message() {
    let outcome = player_outcome(Some("[1, 2]"));
    match outcome {
        Err(e) => {
            assert_eq!(e.code, 500);
            assert_eq!(e.message.as_deref(), Some("Failed to parse player"));
        }
        Ok(_) => panic!("an array is no player record"),
    }
}

#[test]
fn registered_count_is_the_integer_the_body_holds() {
    assert_eq!(registered_count_outcome(Some("42")).unwrap(), 42);
    assert!(registered_count_outcome(Some("42")).unwrap() > 0);
    assert_eq!(registered_count_outcome(Some(" 7 ")).unwrap(), 7);
    assert_eq!(registered_count_outcome(Some("0")).unwrap(), 0);
}

#[test]
fn registered_count_bounds_and_failures() {
    assert_eq!(
        registered_count_outcome(Some("18446744073709551615")).unwrap(),
        u64::MAX
    );
    assert!(registered_count_outcome(Some("18446744073709551616")).is_err());
    assert!(registered_count_outcome(Some("abc")).is_err());
    assert!(registered_count_outcome(Some("-1")).is_err());
    assert!(registered_count_outcome(Some("")).is_err());
    let transport = registered_count_outcome(None);
    match transport {
        Err(e) => {
            assert_eq!(e.message.as_deref(), Some("Failed to get registered user count"));
        }
        Ok(_) => panic!("a missing body must fail"),
    }
}

#[test]
fn online_players_decode_in_order() {
    let players = online_players_outcome(Some("[\"Alice\", \"Bob\"]")).unwrap();
    assert_eq!(players, vec!["Alice".to_string(), "Bob".to_string()]);
    let nobody = online_players_outcome(Some("[]")).unwrap();
    assert!(nobody.is_empty());
    assert!(online_players_outcome(Some("[\"Alice\",]")).is_err());
    match online_players_outcome(None) {
        Err(e) => assert_eq!(e.message.as_deref(), Some("Failed to get online players")),
        Ok(_) => panic!("a missing body must fail"),
    }
}

#[test]
fn leaderboard_page_decodes_in_order() {
    let body = " [ {\"experience\": 500, \"permissions\": 0, \"username\": \"Alice\"} , {\"experience\": 90, \"permissions\": 1, \"username\": \"Bob\"} ] ";
    let page = leaderboard_page_outcome(Some(body)).unwrap();
    assert_eq!(page.len(), 2);
    assert_eq!(page[0].username, "Alice");
    assert_eq!(page[1].username, "Bob");
    assert_eq!(page[1].experience, 90);
    assert_eq!(page[1].permissions, 1);
}

#[test]
fn leaderboard_page_rejects_bodies_outside_the_grammar() {
    assert!(leaderboard_page_outcome(Some("{}")).is_err());
    assert!(leaderboard_page_outcome(Some("[{\"experience\":1}]")).is_err());
    assert!(
        leaderboard_page_outcome(Some("[{\"experience\":1,\"permissions\":256,\"username\":\"A\"}]"))
            .is_err()
    );
    assert!(
        leaderboard_page_outcome(Some("[{\"experience\":1,\"permissions\":0,\"username\":\"A\\\\B\"}]"))
            .is_err()
    );
}

#[test]
fn top_players_equals_page_one() {
    let body = "[{\"experience\": 3, \"permissions\": 0, \"username\": \"Cy\"}]";
    let top = top_players_outcome(Some(body)).unwrap();
    let page_one = leaderboard_page_outcome(Some(body)).unwrap();
    assert_eq!(top.len(), page_one.len());
    for (x, y) in top.iter().zip(page_one.iter()) {
        assert_eq!(x.username, y.username);
        assert_eq!(x.experience, y.experience);
        assert_eq!(x.permissions, y.permissions);
    }
    assert_eq!(top_players_url(), leaderboard_page_url(Some(1)));
}

#[test]
fn entry_display_form_large_experience() {
    let body = "[{\"experience\":1234567890,\"permissions\":0,\"username\":\"Max\"}]";
    let page = leaderboard_page_outcome(Some(body)).unwrap();
    assert_eq!(page[0].display_string(), "Max: 1234567890 experience");
}

#[test]
fn urls_name_each_endpoint() {
    assert_eq!(player_url("Gliss"), "https://play.retro-mmo.com/users/Gliss.json");
    assert_eq!(online_players_url(), "https://play.retro-mmo.com/players.json");
    assert_eq!(registered_count_url(), "https://play.retro-mmo.com/registered-users.json");
    assert_eq!(leaderboard_page_url(None), "https://play.retro-mmo.com/leaderboards.json");
    assert_eq!(
        leaderboard_page_url(Some(12)),
        "https://play.retro-mmo.com/leaderboards.json?page=12"
    );
}

#[test]
fn error_accessors_and_display() {
    let with_message = Error::new(404, Some("missing".to_string()));
    assert_eq!(with_message.code, 404);
    assert_eq!(with_message.description(), "missing");
    assert_eq!(with_message.display_string(), "404: missing");

    let bare = Error::new(404, None);
    assert_eq!(bare.description(), "");
    assert_eq!(bare.display_string(), "404");
}
