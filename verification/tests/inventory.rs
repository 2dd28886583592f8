use hyperion::components::InGameName;
use hyperion::limits::{plan_file_limits, FileLimits, LimitPlan};
use hyperion::system::give_command;
use hyperion::system::inventory_systems::{
    find_player, parse_give, read_count, resolve_give, separates_words, GiveOutcome, GiveRequest,
    FALLBACK_COUNT, FALLBACK_ITEM,
};
use valence_server::ItemKind;

fn names(names: &[&str]) -> Vec<InGameName> {
    names.iter().map(|name| InGameName::new(name.to_string())).collect()
}

fn request(player: &str, item: &str, amount: &str) -> GiveRequest {
    GiveRequest::Request {
        player: player.to_string(),
        item: item.to_string(),
        amount: amount.to_string(),
    }
}

#[test]
fn a_give_command_is_read() {
    assert_eq!(parse_give("give bob diamond 3"), request("bob", "diamond", "3"));
    assert_eq!(parse_give("give  bob\tdiamond\u{3000}3  "), request("bob", "diamond", "3"));
    assert_eq!(parse_give("give bob diamond 3 and more"), request("bob", "diamond", "3"));
    assert_eq!(parse_give("give ßöb dïamond ３"), request("ßöb", "dïamond", "３"));
}

#[test]
fn other_commands_are_no_give_commands() {
    assert_eq!(parse_give(""), GiveRequest::NotGive);
    assert_eq!(parse_give("giv"), GiveRequest::NotGive);
    assert_eq!(parse_give("kick bob now please"), GiveRequest::NotGive);
    assert_eq!(parse_give(" give bob diamond 3"), GiveRequest::NotGive);
    assert_eq!(parse_give("Give bob diamond 3"), GiveRequest::NotGive);
    assert_eq!(parse_give("GIVE bob diamond 3"), GiveRequest::NotGive);
    assert_eq!(parse_give("giveaway bob diamond 3"), GiveRequest::NotGive);
}

#[test]
fn too_few_words_are_invalid() {
    assert_eq!(parse_give("give"), GiveRequest::Invalid);
    assert_eq!(parse_give("give bob"), GiveRequest::Invalid);
    assert_eq!(parse_give("give bob diamond"), GiveRequest::Invalid);
    assert_eq!(parse_give("give bob diamond   "), GiveRequest::Invalid);
    assert_eq!(parse_give("giveaway bob"), GiveRequest::Invalid);
}

#[test]
fn words_are_split_as_std_splits_them() {
    for command in [
        "give a b c",
        "give\u{85}a\u{a0}b\u{1680}c",
        "give\u{2000}a\u{200a}b\u{2028}c\u{2029}d",
        "give\u{202f}a\u{205f}b\u{3000}c",
        "give\u{200b}a b c d",
        "give\u{0b}a\u{0c}b\r\nc",
        "give\u{1f}a b c",
    ] {
        let words: Vec<&str> = command.split_whitespace().collect();
        let expected = if words.len() < 4 {
            GiveRequest::Invalid
        } else if !words[0].eq_ignore_ascii_case("give") {
            GiveRequest::NotGive
        } else {
            request(words[1], words[2], words[3])
        };
        assert_eq!(parse_give(command), expected);
    }
}

#[test]
fn whitespace_is_what_std_calls_whitespace() {
    for code in 0..=0x10_ffffu32 {
        if let Some(c) = char::from_u32(code) {
            assert_eq!(separates_words(c), c.is_whitespace());
        }
    }
}

#[test]
fn counts_are_read_as_std_reads_them() {
    assert_eq!(read_count("0"), Some(0));
    assert_eq!(read_count("7"), Some(7));
    assert_eq!(read_count("+7"), Some(7));
    assert_eq!(read_count("007"), Some(7));
    assert_eq!(read_count("255"), Some(255));
    assert_eq!(read_count("256"), None);
    assert_eq!(read_count("0000000000000000000000255"), Some(255));
    assert_eq!(read_count("99999999999999999999999999"), None);
    assert_eq!(read_count(""), None);
    assert_eq!(read_count("+"), None);
    assert_eq!(read_count("-1"), None);
    assert_eq!(read_count("-0"), None);
    assert_eq!(read_count("++1"), None);
    assert_eq!(read_count("1+"), None);
    assert_eq!(read_count("1_0"), None);
    assert_eq!(read_count(" 1"), None);
    assert_eq!(read_count("１"), None);
    assert_eq!(read_count("12a"), None);
    for n in 0..2_000u32 {
        for text in [format!("{n}"), format!("+{n}"), format!("0{n}"), format!("{n}x")] {
            assert_eq!(read_count(&text), text.parse::<u8>().ok());
        }
    }
}

#[test]
fn the_first_player_of_the_name_is_found() {
    let players = names(&["alice", "bob", "Bob", "bob"]);
    assert_eq!(find_player(&players, &"bob".to_string()), Some(1));
    assert_eq!(find_player(&players, &"Bob".to_string()), Some(2));
    assert_eq!(find_player(&players, &"alice".to_string()), Some(0));
    assert_eq!(find_player(&players, &"carol".to_string()), None);
    assert_eq!(find_player(&Vec::new(), &"bob".to_string()), None);
    assert_eq!(players[2].as_str(), "Bob");
}

#[test]
fn give_names_the_item_as_valence_does() {
    let players = names(&["alice", "bob"]);
    assert_eq!(
        give_command("give bob diamond 3", &players),
        GiveOutcome::Give { player: 1, item: ItemKind::Diamond.to_raw(), count: 3 }
    );
    assert_eq!(
        give_command("gIvE alice stone 64", &players),
        GiveOutcome::NotGive
    );
    assert_eq!(
        give_command("give alice stone 64", &players),
        GiveOutcome::Give { player: 0, item: ItemKind::Stone.to_raw(), count: 64 }
    );
    assert_ne!(ItemKind::Stone.to_raw(), ItemKind::Diamond.to_raw());
}

#[test]
fn give_falls_back_to_the_acacia_boat_and_to_one() {
    let players = names(&["alice", "bob"]);
    assert_eq!(FALLBACK_ITEM, ItemKind::AcaciaBoat.to_raw());
    assert_eq!(FALLBACK_COUNT, 1);
    assert_eq!(
        give_command("give bob no_such_thing many", &players),
        GiveOutcome::Give { player: 1, item: ItemKind::AcaciaBoat.to_raw(), count: 1 }
    );
    assert_eq!(
        give_command("give bob Diamond 300", &players),
        GiveOutcome::Give { player: 1, item: ItemKind::AcaciaBoat.to_raw(), count: 1 }
    );
    assert_eq!(
        give_command("give bob diamond 0", &players),
        GiveOutcome::Give { player: 1, item: ItemKind::Diamond.to_raw(), count: 0 }
    );
}

#[test]
fn give_without_effect() {
    let players = names(&["alice", "bob"]);
    assert_eq!(give_command("give carol diamond 3", &players), GiveOutcome::PlayerNotFound);
    assert_eq!(give_command("give bob diamond", &players), GiveOutcome::Invalid);
    assert_eq!(give_command("say hello to all", &players), GiveOutcome::NotGive);
    assert_eq!(give_command("giveth bob diamond 3", &players), GiveOutcome::NotGive);
}

#[test]
fn resolve_takes_the_item_as_given() {
    let players = names(&["alice", "bob"]);
    let asked = request("bob", "whatever", "+12");
    assert_eq!(
        resolve_give(&asked, &players, Some(5)),
        GiveOutcome::Give { player: 1, item: 5, count: 12 }
    );
    assert_eq!(
        resolve_give(&asked, &players, None),
        GiveOutcome::Give { player: 1, item: FALLBACK_ITEM, count: 12 }
    );
    assert_eq!(resolve_give(&GiveRequest::Invalid, &players, Some(5)), GiveOutcome::Invalid);
    assert_eq!(resolve_give(&GiveRequest::NotGive, &players, Some(5)), GiveOutcome::NotGive);
    assert_eq!(
        resolve_give(&request("dave", "stone", "1"), &players, Some(5)),
        GiveOutcome::PlayerNotFound
    );
}

#[test]
fn soft_limit_is_raised_to_the_hard_limit() {
    assert_eq!(
        plan_file_limits(FileLimits { soft: 256, hard: 10_240 }, 8_192),
        LimitPlan { limits: FileLimits { soft: 10_240, hard: 10_240 }, below_recommended: false }
    );
    assert_eq!(
        plan_file_limits(FileLimits { soft: 256, hard: 4_096 }, 8_192),
        LimitPlan { limits: FileLimits { soft: 4_096, hard: 4_096 }, below_recommended: true }
    );
    assert_eq!(
        plan_file_limits(FileLimits { soft: 9_000, hard: 8_192 }, 8_192),
        LimitPlan { limits: FileLimits { soft: 8_192, hard: 8_192 }, below_recommended: false }
    );
}
