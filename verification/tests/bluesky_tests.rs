use agent_tools::bluesky::{
    build_link_and_tag_facets, find_mention_candidates, merge_facets, sort_facets, BlueskyPostTool, Facet,
    FacetKind,
};
use agent_tools::framework::{ToolCategory, ToolType};

#[test]
fn builds_link_facet_with_correct_byte_offsets() {
    let text = "Check out https://example.com/path?q=1, great stuff";
    let (facets, occupied) = build_link_and_tag_facets(text);
    assert_eq!(facets.len(), 1);
    assert_eq!(occupied.len(), 1);
    let facet = &facets[0];
    let byte_start = facet.byte_start;
    let byte_end = facet.byte_end;
    assert_eq!(occupied[0], (byte_start, byte_end));
    assert_eq!(&text[byte_start..byte_end], "https://example.com/path?q=1");
    assert_eq!(facet.kind, FacetKind::Link);
    assert_eq!(facet.value, "https://example.com/path?q=1");
}

#[test]
fn builds_tag_facet_with_multibyte_text() {
    let text = "café #café über";
    let (facets, _) = build_link_and_tag_facets(text);
    assert_eq!(facets.len(), 1);
    let facet = &facets[0];
    assert_eq!(facet.kind, FacetKind::Tag);
    assert_eq!(facet.value, "café");
    assert_eq!(&text[facet.byte_start..facet.byte_end], "#café");
}

#[test]
fn does_not_double_count_hashtag_inside_url_fragment() {
    let text = "See https://example.com/#section for details";
    let (facets, _) = build_link_and_tag_facets(text);
    assert_eq!(facets.len(), 1);
    assert_eq!(facets[0].kind, FacetKind::Link);
}

#[test]
fn finds_mention_candidate_outside_occupied_ranges() {
    let text = "ping @alice.bsky.social about this";
    let (_, occupied) = build_link_and_tag_facets(text);
    let mentions = find_mention_candidates(text, &occupied);
    assert_eq!(mentions.len(), 1);
    assert_eq!(mentions[0].2, "alice.bsky.social");
}

#[test]
fn a_bare_hash_is_not_a_hashtag() {
    let (facets, occupied) = build_link_and_tag_facets("a #. b");
    assert!(facets.is_empty(), "{:?}", facets);
    assert!(occupied.is_empty());
}

#[test]
fn a_mention_inside_a_link_is_not_treated_as_a_mention() {
    let text = "profile at https://example.com/@alice.bsky.social today";
    let (facets, occupied) = build_link_and_tag_facets(text);
    assert_eq!(facets.len(), 1);
    assert!(find_mention_candidates(text, &occupied).is_empty());
}

#[test]
fn metadata_describes_the_bluesky_tool() {
    let tool = BlueskyPostTool::new(None, None);
    assert_eq!(tool.metadata.id, "bluesky_post");
    assert_eq!(tool.metadata.category, ToolCategory::Social);
    assert_eq!(tool.metadata.tool_type, ToolType::BlueskyPost);
}

#[test]
fn resolved_mentions_join_the_facets_in_text_order() {
    let text = "@bob.test see https://a.example #tag";
    let (facets, occupied) = build_link_and_tag_facets(text);
    let candidates = find_mention_candidates(text, &occupied);
    assert_eq!(candidates.len(), 1);
    let merged = merge_facets(facets, candidates, vec![Some("did:plc:bob".to_string())]);
    let kinds: Vec<FacetKind> = merged.iter().map(|f| f.kind).collect();
    assert_eq!(kinds, vec![FacetKind::Mention, FacetKind::Link, FacetKind::Tag]);
    assert_eq!(merged[0].value, "did:plc:bob");
    assert_eq!(&text[merged[0].byte_start..merged[0].byte_end], "@bob.test");
    let starts: Vec<usize> = merged.iter().map(|f| f.byte_start).collect();
    let mut sorted = starts.clone();
    sorted.sort();
    assert_eq!(starts, sorted);
}

#[test]
fn an_unresolved_mention_is_dropped() {
    let text = "hi @nobody.test";
    let (facets, occupied) = build_link_and_tag_facets(text);
    let candidates = find_mention_candidates(text, &occupied);
    let merged = merge_facets(facets, candidates, vec![None]);
    assert!(merged.is_empty());
}

#[test]
fn sorting_orders_facets_by_start() {
    let f = |s: usize| Facet { byte_start: s, byte_end: s + 1, kind: FacetKind::Tag, value: s.to_string() };
    let sorted = sort_facets(vec![f(5), f(1), f(3)]);
    let starts: Vec<usize> = sorted.iter().map(|x| x.byte_start).collect();
    assert_eq!(starts, vec![1, 3, 5]);
}

#[test]
fn sorting_keeps_facets_with_equal_starts_in_order() {
    let f = |s: usize, v: &str| Facet { byte_start: s, byte_end: s + 1, kind: FacetKind::Tag, value: v.to_string() };
    let sorted = sort_facets(vec![f(4, "a"), f(2, "b"), f(4, "c"), f(2, "d"), f(4, "e")]);
    let values: Vec<&str> = sorted.iter().map(|x| x.value.as_str()).collect();
    assert_eq!(values, vec!["b", "d", "a", "c", "e"]);
}

#[test]
fn the_post_record_leaves_out_an_empty_facet_list() {
    let r = BlueskyPostTool::post_record("hello", vec![]);
    assert_eq!(r.text, "hello");
    assert!(r.facets.is_none());
    assert!(r.created_at.ends_with('Z'));
    assert_eq!(r.created_at.len(), "2024-01-01T00:00:00.000Z".len());
}
