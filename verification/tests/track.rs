use spotifyrics::track::{Track, NO_LYRICS};

fn names(list: &[&str]) -> Vec<String> {
    list.iter().map(|name| name.to_string()).collect()
}

#[test]
fn new_track_is_empty_with_no_lyrics_found() {
    let track = Track::new();
    assert_eq!(track.name, "");
    assert!(track.artists.is_empty());
    assert_eq!(track.lyrics, "No lyrics found");
    assert_eq!(NO_LYRICS, "No lyrics found");
}

#[test]
fn default_track_is_the_new_track() {
    let track = Track::default();
    assert_eq!(track.name, "");
    assert!(track.artists.is_empty());
    assert_eq!(track.lyrics, "No lyrics found");
    assert!(track == Track::new());
}

#[test]
fn builders_set_one_field_each() {
    let track = Track::new().name("Numb");
    assert_eq!(track.name, "Numb");
    assert!(track.artists.is_empty());
    assert_eq!(track.lyrics, "No lyrics found");

    let track = track.artists("Linkin Park");
    assert_eq!(track.name, "Numb");
    assert_eq!(track.artists, names(&["Linkin Park"]));
    assert_eq!(track.lyrics, "No lyrics found");

    let track = track.lyrics("L1\nL2");
    assert_eq!(track.name, "Numb");
    assert_eq!(track.artists, names(&["Linkin Park"]));
    assert_eq!(track.lyrics, "L1\nL2");
}

#[test]
fn later_builder_calls_replace_earlier_ones() {
    let track = Track::new()
        .name("One")
        .artists("A")
        .lyrics("x")
        .name("Two")
        .artists("B")
        .lyrics("y");
    assert_eq!(track.name, "Two");
    assert_eq!(track.artists, names(&["B"]));
    assert_eq!(track.lyrics, "y");
    let track = track.artist_list(&names(&["C", "D"]));
    assert_eq!(track.artists, names(&["C", "D"]));
}

#[test]
fn title_and_artists_are_trimmed() {
    let track = Track::new().name("  Hotline Bling\n").artists(" Drake ");
    assert_eq!(track.name, "Hotline Bling");
    assert_eq!(track.artists, names(&["Drake"]));
    assert_eq!(track.artist_line(), "Drake");
}

#[test]
fn artist_list_trims_each_name_and_keeps_the_order() {
    let track = Track::new().artist_list(&names(&[" Drake ", "Future\t", "  21 Savage"]));
    assert_eq!(track.artists, names(&["Drake", "Future", "21 Savage"]));
    assert_eq!(track.artist_line(), "Drake, Future, 21 Savage");
}

#[test]
fn lyrics_are_kept_as_they_stand() {
    let track = Track::new().lyrics("  keep me \n");
    assert_eq!(track.lyrics, "  keep me \n");
}

#[test]
fn artist_line_of_no_artists_is_empty() {
    assert_eq!(Track::new().artist_line(), "");
    assert_eq!(Track::new().artist_list(&Vec::new()).artist_line(), "");
}

#[test]
fn same_title_and_artists_is_the_same_track() {
    let a = Track::new().name("Numb").artists("Linkin Park");
    let b = Track::new().name("Numb").artists("Linkin Park");
    assert!(a == b);
    assert!(!(a != b));
}

#[test]
fn lyrics_take_no_part_in_equality() {
    let a = Track::new().name("Numb").artists("Linkin Park");
    let b = Track::new()
        .name("Numb")
        .artists("Linkin Park")
        .lyrics("I'm tired of being what you want me to be");
    assert!(a == b);
    assert!(b == a);
}

#[test]
fn another_title_is_another_track() {
    let a = Track::new().name("Numb").artists("Linkin Park");
    let b = Track::new().name("Faint").artists("Linkin Park");
    assert!(a != b);
    assert!(!(a == b));
}

#[test]
fn other_artists_are_another_track() {
    let a = Track::new().name("Numb").artists("Linkin Park");
    let b = Track::new().name("Numb").artists("Jay-Z");
    let c = Track::new()
        .name("Numb")
        .artist_list(&names(&["Linkin Park", "Jay-Z"]));
    assert!(a != b);
    assert!(a != c);
    assert!(b != c);
}

#[test]
fn equality_looks_at_the_artist_line() {
    let listed = Track::new().name("Numb").artist_list(&names(&["Jay-Z", "Linkin Park"]));
    let written = Track::new().name("Numb").artists("Jay-Z, Linkin Park");
    assert_eq!(listed.artists.len(), 2);
    assert_eq!(written.artists.len(), 1);
    assert!(listed == written);
    let swapped = Track::new().name("Numb").artist_list(&names(&["Linkin Park", "Jay-Z"]));
    assert!(listed != swapped);
}

#[test]
fn surrounding_whitespace_does_not_make_another_track() {
    let plain = Track::new().name("Hotline Bling").artist_list(&names(&["Drake"]));
    let padded = Track::new()
        .name(" Hotline Bling ")
        .artist_list(&names(&[" Drake "]));
    assert!(plain == padded);
    assert_eq!(padded.artist_line(), "Drake");
}

#[test]
fn title_and_artists_are_not_mixed_up() {
    let a = Track::new().name("A").artists("B");
    let b = Track::new().name("B").artists("A");
    assert!(a != b);
}

#[test]
fn render_boxes_the_heading_over_the_lyrics() {
    let track = Track::new()
        .name("Numb")
        .artist_list(&names(&["Linkin Park"]))
        .lyrics("L1\nL2");
    let block = track.render();
    assert_eq!(
        block,
        "+--------------------+\n| Numb - Linkin Park |\n+--------------------+\n\nL1\nL2"
    );
    let lines: Vec<&str> = block.split('\n').collect();
    assert_eq!(lines[0].matches('-').count(), 20);
    assert_eq!(lines[0].len(), 22);
    assert_eq!(lines[1], "| Numb - Linkin Park |");
    assert_eq!(lines[2], lines[0]);
    assert_eq!(lines[3], "");
    assert_eq!(lines[4], "L1");
    assert_eq!(lines[5], "L2");
}

#[test]
fn render_joins_the_artists_with_comma_and_space() {
    let track = Track::new()
        .name("Numb / Encore")
        .artist_list(&names(&["Jay-Z", "Linkin Park"]))
        .lyrics("x");
    let dashes = "-".repeat(13 + 18 + 5);
    assert_eq!(
        track.render(),
        format!(
            "+{}+\n| Numb / Encore - Jay-Z, Linkin Park |\n+{}+\n\nx",
            dashes, dashes
        )
    );
}

#[test]
fn render_of_the_new_track() {
    assert_eq!(
        Track::new().render(),
        "+-----+\n|  -  |\n+-----+\n\nNo lyrics found"
    );
}

#[test]
fn render_counts_bytes_for_the_border() {
    let track = Track::new().name("Caf\u{e9}").artists("Zo\u{eb}").lyrics("");
    assert_eq!(
        track.render(),
        format!(
            "+{}+\n| Caf\u{e9} - Zo\u{eb} |\n+{}+\n\n",
            "-".repeat(5 + 4 + 5),
            "-".repeat(5 + 4 + 5)
        )
    );
}

#[test]
fn render_does_not_wrap_or_cut() {
    let title = "a very long title ".repeat(20);
    let track = Track::new().name(&title).artists("someone").lyrics("la");
    let block = track.render();
    let lines: Vec<&str> = block.split('\n').collect();
    assert_eq!(lines.len(), 5);
    assert_eq!(lines[1], format!("| {} - someone |", title.trim()));
    assert_eq!(lines[0].len(), lines[1].len());
}

#[test]
fn clone_keeps_every_field() {
    let track = Track::new().name("Numb").artists("Linkin Park").lyrics("L");
    let copy = track.clone();
    assert_eq!(copy.name, track.name);
    assert_eq!(copy.artists, track.artists);
    assert_eq!(copy.lyrics, track.lyrics);
}
