use audio_tags::{empty, get_sound_tags, Lookup, Tags};

fn nothing() -> Lookup {
    Lookup {
        title: None,
        copyright: None,
        software: None,
        artist: None,
        comment: None,
        date: None,
        album: None,
        license: None,
        track_number: None,
        genre: None,
    }
}

#[test]
fn nothing_found_gives_the_empty_record() {
    assert_eq!(get_sound_tags(nothing()), empty());
}

#[test]
fn every_found_tag_is_kept_as_it_is() {
    let found = Lookup {
        title: Some("Interstellar".to_string()),
        copyright: Some("(c) 2014 WaterTower Music".to_string()),
        software: Some("Lavf58.29.100".to_string()),
        artist: Some("Hans Zimmer".to_string()),
        comment: Some("main theme".to_string()),
        date: Some("2014-11-18".to_string()),
        album: Some("Original Motion Picture Soundtrack".to_string()),
        license: Some("All rights reserved".to_string()),
        track_number: Some("17".to_string()),
        genre: Some("Soundtrack".to_string()),
    };
    let tags = get_sound_tags(found);
    assert_eq!(tags.title, "Interstellar");
    assert_eq!(tags.copyright, "(c) 2014 WaterTower Music");
    assert_eq!(tags.software, "Lavf58.29.100");
    assert_eq!(tags.artist, "Hans Zimmer");
    assert_eq!(tags.comment, "main theme");
    assert_eq!(tags.date, "2014-11-18");
    assert_eq!(tags.album, "Original Motion Picture Soundtrack");
    assert_eq!(tags.license, "All rights reserved");
    assert_eq!(tags.track_number, "17");
    assert_eq!(tags.genre, "Soundtrack");
}

#[test]
fn title_alone_leaves_the_other_nine_empty() {
    let found = Lookup { title: Some("Interstellar".to_string()), artist: None, ..nothing() };
    let expected = Tags {
        title: "Interstellar".to_string(),
        artist: "".to_string(),
        copyright: "".to_string(),
        software: "".to_string(),
        comment: "".to_string(),
        date: "".to_string(),
        album: "".to_string(),
        license: "".to_string(),
        track_number: "".to_string(),
        genre: "".to_string(),
    };
    assert_eq!(get_sound_tags(found), expected);
}

#[test]
fn each_answer_lands_in_its_own_field() {
    let tags = get_sound_tags(Lookup { copyright: Some("c".to_string()), ..nothing() });
    assert_eq!(tags, Tags { copyright: "c".to_string(), ..empty() });
    let tags = get_sound_tags(Lookup { software: Some("s".to_string()), ..nothing() });
    assert_eq!(tags, Tags { software: "s".to_string(), ..empty() });
    let tags = get_sound_tags(Lookup { artist: Some("a".to_string()), ..nothing() });
    assert_eq!(tags, Tags { artist: "a".to_string(), ..empty() });
    let tags = get_sound_tags(Lookup { comment: Some("m".to_string()), ..nothing() });
    assert_eq!(tags, Tags { comment: "m".to_string(), ..empty() });
    let tags = get_sound_tags(Lookup { date: Some("d".to_string()), ..nothing() });
    assert_eq!(tags, Tags { date: "d".to_string(), ..empty() });
    let tags = get_sound_tags(Lookup { album: Some("l".to_string()), ..nothing() });
    assert_eq!(tags, Tags { album: "l".to_string(), ..empty() });
    let tags = get_sound_tags(Lookup { license: Some("i".to_string()), ..nothing() });
    assert_eq!(tags, Tags { license: "i".to_string(), ..empty() });
    let tags = get_sound_tags(Lookup { track_number: Some("7".to_string()), ..nothing() });
    assert_eq!(tags, Tags { track_number: "7".to_string(), ..empty() });
    let tags = get_sound_tags(Lookup { genre: Some("g".to_string()), ..nothing() });
    assert_eq!(tags, Tags { genre: "g".to_string(), ..empty() });
}

#[test]
fn found_text_is_neither_trimmed_nor_folded() {
    let found = Lookup {
        title: Some("  Padded Title \t".to_string()),
        artist: Some("mIxEd CaSe".to_string()),
        comment: Some("line one\nline two".to_string()),
        album: Some("Ænima — 日本語".to_string()),
        ..nothing()
    };
    let tags = get_sound_tags(found);
    assert_eq!(tags.title, "  Padded Title \t");
    assert_eq!(tags.artist, "mIxEd CaSe");
    assert_eq!(tags.comment, "line one\nline two");
    assert_eq!(tags.album, "Ænima — 日本語");
    assert_eq!(tags.genre, "");
}

#[test]
fn a_tag_found_empty_reads_like_an_absent_one() {
    let found = Lookup { title: Some(String::new()), genre: Some(String::new()), ..nothing() };
    assert_eq!(get_sound_tags(found), empty());
}

#[test]
fn the_answers_print_for_debugging() {
    let text = format!("{:?}", Lookup { date: Some("1999".to_string()), ..nothing() });
    assert!(text.contains("date: Some(\"1999\")"));
    assert!(text.contains("title: None"));
}
