use monster_player::lyrics::{lrc_is_readable, lyric_index_at, parse_lrc, parse_time, LrcTime, LyricLine};

fn line(t: u64, s: &str) -> LyricLine {
    LyricLine { time: LrcTime::from_ms(t), text: s.to_string() }
}

fn at_ms(t: &LrcTime, ms: u64) -> bool {
    t.same_time(&LrcTime::from_ms(ms))
}

fn tag(s: &str) -> LrcTime {
    parse_time(s).expect("a time")
}

#[test]
fn parse_time_reads_minutes_and_seconds() {
    assert!(at_ms(&tag("00:12.50"), 12_500));
    assert!(at_ms(&tag("01:02"), 62_000));
    assert!(tag("2:03.4567").same_time(&tag("0:123.4567")));
    assert!(!at_ms(&tag("2:03.4567"), 123_456));
    assert!(at_ms(&tag(".5:.5"), 30_500));
}

#[test]
fn parse_time_reads_what_float_parsing_reads() {
    assert!(at_ms(&tag("00:1e1"), 10_000));
    assert!(at_ms(&tag("+1:00"), 60_000));
    assert!(at_ms(&tag("00:2.5E-1"), 250));
    assert!(at_ms(&tag("5.:0"), 300_000));
    assert!(at_ms(&tag("-1:90"), 30_000));
    assert!(at_ms(&tag("-0:5"), 5_000));
    assert!(tag("0:-5").le(&LrcTime::from_ms(0)));
    assert!(!LrcTime::from_ms(0).le(&tag("0:-5")));
    assert!(at_ms(&tag("0:1e-999"), 0));
    assert!(parse_time("0:1e999").is_none());
    assert!(parse_time("0:inf").is_none());
    assert!(parse_time("0:nan").is_none());
}

#[test]
fn parse_time_refuses_other_shapes() {
    assert!(parse_time("ar:someone").is_none());
    assert!(parse_time("00:01:02").is_none());
    assert!(parse_time("0012").is_none());
    assert!(parse_time(":12").is_none());
    assert!(parse_time("00:1a").is_none());
    assert!(parse_time("00:.").is_none());
    assert!(parse_time("00:1e").is_none());
    assert!(parse_time("00: 1").is_none());
}

#[test]
fn parse_lrc_orders_lines_by_time() {
    let text = "[00:12.50]second\n[00:01.00] first \n[ar:someone]\nplain line\n\n[00:30]third";
    let lines = parse_lrc(text);
    assert_eq!(lines.len(), 3);
    assert!(at_ms(&lines[0].time, 1_000));
    assert_eq!(lines[0].text, "first");
    assert!(at_ms(&lines[1].time, 12_500));
    assert_eq!(lines[1].text, "second");
    assert!(at_ms(&lines[2].time, 30_000));
    assert_eq!(lines[2].text, "third");
}

#[test]
fn parse_lrc_keeps_tags_in_every_float_form() {
    let lines = parse_lrc("[00:1e1]x\n[+1:00]y\n[00:05]z\n");
    let texts: Vec<&str> = lines.iter().map(|l| l.text.as_str()).collect();
    assert_eq!(texts, vec!["z", "x", "y"]);
}

#[test]
fn parse_lrc_orders_times_finer_than_a_millisecond() {
    let lines = parse_lrc("[00:01.0001]a\n[00:01.0000]b\n");
    let texts: Vec<&str> = lines.iter().map(|l| l.text.as_str()).collect();
    assert_eq!(texts, vec!["b", "a"]);
}

#[test]
fn parse_lrc_keeps_equal_times_in_file_order() {
    let lines = parse_lrc("[00:05]b\n[00:01]a\n[00:05]c\r\n");
    let texts: Vec<&str> = lines.iter().map(|l| l.text.as_str()).collect();
    assert_eq!(texts, vec!["a", "b", "c"]);
    assert!(at_ms(&lines[2].time, 5_000));
}

#[test]
fn parse_lrc_of_empty_text_is_empty() {
    assert!(parse_lrc("").is_empty());
    assert!(parse_lrc("no tags here\n").is_empty());
}

#[test]
fn readable_lyrics_text() {
    assert!(lrc_is_readable("[00:01]a\nplain\n"));
    assert!(!lrc_is_readable("]starts with bracket"));
}

#[test]
fn highlight_follows_time() {
    let lines = vec![line(1_000, "a"), line(5_000, "b"), line(9_000, "c")];
    assert_eq!(lyric_index_at(&lines, 0), 0);
    assert_eq!(lyric_index_at(&lines, 1_000), 0);
    assert_eq!(lyric_index_at(&lines, 4_999), 0);
    assert_eq!(lyric_index_at(&lines, 5_000), 1);
    assert_eq!(lyric_index_at(&lines, 60_000), 2);
    assert_eq!(lyric_index_at(&Vec::new(), 60_000), 0);
}

#[test]
fn highlight_follows_sub_millisecond_times() {
    let lines = parse_lrc("[00:00.0005]a\n[00:00.0015]b\n");
    assert_eq!(lyric_index_at(&lines, 0), 0);
    assert_eq!(lyric_index_at(&lines, 1), 0);
    assert_eq!(lyric_index_at(&lines, 2), 1);
}

#[test]
fn highlight_never_moves_back_as_time_advances() {
    let lines = parse_lrc("[00:03]x\n[00:01]y\n[00:02]z\n");
    let mut last = 0;
    for t in (0..5_000).step_by(250) {
        let i = lyric_index_at(&lines, t);
        assert!(i >= last);
        last = i;
    }
    assert_eq!(last, 2);
}
