use yt_tui::{DetailRecord, SearchHit};
use yt_tui::search::{merge_results, video_link};

fn hit(n: &str) -> SearchHit {
    SearchHit {
        title: format!("title-{}", n),
        channel: format!("channel-{}", n),
        published_at: format!("2024-01-0{}", n),
        description: format!("about {}", n),
        video_id: format!("id{}", n),
    }
}

fn detail(n: &str) -> DetailRecord {
    DetailRecord { duration: format!("PT{}M", n), view_count: format!("{}000", n) }
}

#[test]
fn video_link_prefixes_identifier() {
    assert_eq!(video_link(&String::from("glQZlH8TfHM")), "https://youtube.com/watch?v=glQZlH8TfHM");
}

#[test]
fn video_link_of_empty_identifier_is_bare_prefix() {
    assert_eq!(video_link(&String::new()), "https://youtube.com/watch?v=");
}

#[test]
fn merge_pairs_by_position() {
    let hits = vec![hit("1"), hit("2")];
    let details = vec![detail("1"), detail("2")];
    let merged = merge_results(&hits, &details);
    assert_eq!(merged.len(), 2);
    assert_eq!(merged[0].title, "title-1");
    assert_eq!(merged[0].channel, "channel-1");
    assert_eq!(merged[0].published_at, "2024-01-01");
    assert_eq!(merged[0].description, "about 1");
    assert_eq!(merged[0].duration, "PT1M");
    assert_eq!(merged[0].view_count, "1000");
    assert_eq!(merged[0].link, "https://youtube.com/watch?v=id1");
    assert_eq!(merged[1].title, "title-2");
    assert_eq!(merged[1].link, "https://youtube.com/watch?v=id2");
}

#[test]
fn merge_stops_at_shorter_side_when_details_lag() {
    let hits = vec![hit("1"), hit("2"), hit("3")];
    let details = vec![detail("1")];
    let merged = merge_results(&hits, &details);
    assert_eq!(merged.len(), 1);
    assert_eq!(merged[0].title, "title-1");
}

#[test]
fn merge_stops_at_shorter_side_when_hits_lag() {
    let hits = vec![hit("1")];
    let details = vec![detail("1"), detail("2")];
    let merged = merge_results(&hits, &details);
    assert_eq!(merged.len(), 1);
    assert_eq!(merged[0].view_count, "1000");
}

#[test]
fn merge_of_empty_sides_is_empty() {
    let merged = merge_results(&Vec::new(), &Vec::new());
    assert_eq!(merged.len(), 0);
}
