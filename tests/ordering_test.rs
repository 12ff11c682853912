use langsmith_rust::ids::RunId;
use langsmith_rust::json::Json;
use langsmith_rust::run::{Run, RunType};
use langsmith_rust::time::Timestamp;

fn at(second: u32, micros: u32, id: u128) -> Run {
    let start = Timestamp { year: 2024, month: 9, day: 19, hour: 17, minute: 16, second, micros };
    Run::with_identity(RunId { value: id }, start, "s".to_string(), RunType::Chain, Json::Null)
}

#[test]
fn sibling_keys_sort_into_creation_order() {
    let parent = "20240919T171600000000Z00000000-0000-0000-0000-0000000000aa";
    let created = vec![
        at(1, 5, 900),
        at(1, 5, 901),
        at(1, 10, 3),
        at(2, 0, 1),
        at(2, 0, u128::MAX),
        at(10, 999_999, 0),
    ];
    let keys: Vec<String> = created.iter().map(|r| r.generate_dotted_order(Some(parent))).collect();
    let mut sorted = keys.clone();
    sorted.reverse();
    sorted.sort();
    assert_eq!(sorted, keys);
}

#[test]
fn same_microsecond_is_ordered_by_identifier() {
    let a = at(3, 7, 0x0f).generate_dotted_order(None);
    let b = at(3, 7, 0x10).generate_dotted_order(None);
    let c = at(3, 7, 0xa0).generate_dotted_order(None);
    assert!(a < b);
    assert!(b < c);
}

fn creation_rank(r: &Run) -> (u32, u32, u32, u32, u32, u32, u32, u128) {
    let t = r.start_time;
    (t.year, t.month, t.day, t.hour, t.minute, t.second, t.micros, r.id.value)
}

#[test]
fn live_siblings_sort_into_creation_order() {
    let parent = Run::new("p".to_string(), RunType::Chain, Json::Null).generate_dotted_order(None);
    let mut runs = Vec::new();
    for _ in 0..5 {
        runs.push(Run::new("s".to_string(), RunType::Tool, Json::Null));
    }
    for a in &runs {
        for b in &runs {
            if creation_rank(a) < creation_rank(b) {
                assert!(a.generate_dotted_order(Some(&parent)) < b.generate_dotted_order(Some(&parent)));
            }
        }
    }
}
