use term_cat::agent::ChannelFilter;

fn must_eq(actual: &str, expected: &str, label: &str) -> Result<(), String> {
    if actual == expected {
        Ok(())
    } else {
        Err(format!("{label}: expected {expected:?}, got {actual:?}"))
    }
}

fn must_clean(filter: &ChannelFilter, label: &str) -> Result<(), String> {
    if filter.is_clean() {
        Ok(())
    } else {
        Err(format!("{label}: filter not clean: {filter:?}"))
    }
}

#[test]
fn empty_input() -> Result<(), String> {
    let (filter, out) = ChannelFilter::new().feed("");
    must_eq(&out, "", "empty out")?;
    must_clean(&filter, "empty clean")
}

#[test]
fn pure_text_passes_through() -> Result<(), String> {
    let (filter, out) = ChannelFilter::new().feed("hello world");
    must_eq(&out, "hello world", "pure text")?;
    must_clean(&filter, "pure clean")
}

#[test]
fn one_complete_marker_block_stripped() -> Result<(), String> {
    let input = "<|channel>thought\n<channel|>actual reply";
    let (filter, out) = ChannelFilter::new().feed(input);
    must_eq(&out, "actual reply", "single block")?;
    must_clean(&filter, "single clean")
}

#[test]
fn marker_split_across_two_tokens() -> Result<(), String> {
    let (f1, out1) = ChannelFilter::new().feed("<|chan");
    must_eq(&out1, "", "partial open: nothing yet")?;
    let (f2, out2) = f1.feed("nel>thought\n<channel|>visible");
    must_eq(&out2, "visible", "marker completed across tokens")?;
    must_clean(&f2, "after second token")
}

#[test]
fn close_marker_split_across_tokens() -> Result<(), String> {
    let (f1, out1) = ChannelFilter::new().feed("<|channel>thought<chann");
    must_eq(&out1, "", "open present, close partial")?;
    let (f2, out2) = f1.feed("el|>after");
    must_eq(&out2, "after", "close completed")?;
    must_clean(&f2, "after close")
}

#[test]
fn text_before_marker_emitted() -> Result<(), String> {
    let (filter, out) = ChannelFilter::new().feed("prefix <|channel>x<channel|>suffix");
    must_eq(&out, "prefix suffix", "text around marker")?;
    must_clean(&filter, "after marker")
}

#[test]
fn multiple_marker_blocks_in_one_token() -> Result<(), String> {
    let input = "<|channel>a<channel|>visible1<|channel>b<channel|>visible2";
    let (filter, out) = ChannelFilter::new().feed(input);
    must_eq(&out, "visible1visible2", "two blocks")?;
    must_clean(&filter, "two blocks clean")
}

#[test]
fn lone_left_angle_at_end_is_buffered() -> Result<(), String> {
    let (f1, out1) = ChannelFilter::new().feed("hello <");
    must_eq(&out1, "hello ", "emit text, buffer angle")?;
    let (f2, out2) = f1.feed(" world");
    must_eq(&out2, "< world", "flush buffered angle on continuation")?;
    must_clean(&f2, "post-flush clean")
}

#[test]
fn left_angle_text_that_does_not_open_a_marker() -> Result<(), String> {
    let (filter, out) = ChannelFilter::new().feed("if a < b then ...");
    must_eq(&out, "if a < b then ...", "lone < passes through")?;
    must_clean(&filter, "lone < clean")
}

#[test]
fn unmatched_open_remains_buffered_at_end() -> Result<(), String> {
    let (f1, out1) = ChannelFilter::new().feed("<|channel>thought");
    must_eq(&out1, "", "no close yet")?;
    if f1.is_clean() {
        return Err("filter should not be clean with unmatched open".to_owned());
    }
    Ok(())
}

#[test]
fn supergemma_default_preamble() -> Result<(), String> {
    let input = "<|channel>thought\n<channel|>Hello! How can I help you today?";
    let (filter, out) = ChannelFilter::new().feed(input);
    must_eq(&out, "Hello! How can I help you today?", "supergemma preamble")?;
    must_clean(&filter, "supergemma clean")
}

#[test]
fn split_feed_matches_whole_feed() {
    let whole = "ab<|chan" ;
    let rest = "nel>hidden<chan";
    let tail = "nel|>shown <";
    let (f1, o1) = ChannelFilter::new().feed(whole);
    let (f2, o2) = f1.feed(rest);
    let (f3, o3) = f2.feed(tail);
    let (g, all) = ChannelFilter::new().feed(&format!("{whole}{rest}{tail}"));
    assert_eq!(format!("{o1}{o2}{o3}"), all);
    assert_eq!(all, "abshown ");
    assert_eq!(f3.is_clean(), g.is_clean());
    assert!(!g.is_clean());
}

#[test]
fn non_ascii_text_passes_through() {
    let (f, out) = ChannelFilter::new().feed("héllo → wörld");
    assert_eq!(out, "héllo → wörld");
    assert!(f.is_clean());
}
