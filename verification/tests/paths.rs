use std::path::{Component, Path};

use t2v::path::{path_components, paths_equal};
use t2v::proto::Request;
use t2v::subscribers::SubscriberList;
use t2v::unit::{UnitAction, UnitEvent, UnitState};
use t2v::frame::IrNecFrame;

const SAMPLES: &[&str] = &[
    "", "/", "//", "/tmp/a", "/tmp//a", "/tmp/./a", "/tmp/a/", "/tmp/a/.", "tmp/a", "./tmp/a",
    ".", "./", "..", "../a", "a/../b", "a/./b", ".a", "./.a", "a/.", "/./a", "/..", "a//b//",
    "...", "./.", ".//a",
];

fn std_components(path: &str) -> Vec<Vec<u8>> {
    Path::new(path)
        .components()
        .map(|c| match c {
            Component::RootDir => b"/".to_vec(),
            Component::CurDir => b".".to_vec(),
            Component::ParentDir => b"..".to_vec(),
            Component::Normal(s) => s.to_str().unwrap().as_bytes().to_vec(),
            Component::Prefix(_) => unreachable!(),
        })
        .collect()
}

#[test]
fn components_agree_with_std() {
    for path in SAMPLES {
        assert_eq!(path_components(path.as_bytes()), std_components(path), "path {:?}", path);
    }
}

#[test]
fn path_equality_agrees_with_std() {
    for a in SAMPLES {
        for b in SAMPLES {
            let std_equal = Path::new(a) == Path::new(b);
            assert_eq!(paths_equal(a.as_bytes(), b.as_bytes()), std_equal, "{:?} {:?}", a, b);
        }
    }
}

#[test]
fn one_location_is_one_subscriber() {
    let mut list = SubscriberList::new();
    assert!(list.insert(b"/tmp/a"));
    assert!(!list.insert(b"/tmp//a"));
    assert!(!list.insert(b"/tmp/./a"));
    assert!(!list.insert(b"/tmp/a/"));
    assert!(list.contains(b"/tmp/a/."));
    assert!(list.insert(b"./tmp/a"));
    assert!(list.insert(b"tmp/a"));
    assert_eq!(list.len(), 3);
    assert_eq!(list.to_vec()[0], b"/tmp/a".to_vec());
}

#[test]
fn a_path_written_two_ways_gets_each_frame_once() {
    let mut state = UnitState::new();
    for sender in ["/run/cli.sock", "/run//cli.sock", "/run/./cli.sock/"] {
        state.step(UnitEvent::Request {
            request: Request::ReceiveNecFrames { enable: true },
            sender: Some(sender.as_bytes().to_vec()),
        });
    }
    match state.step(UnitEvent::IrFrame(Some(IrNecFrame::new([0, 0xff], [1, 0xfe])))) {
        UnitAction::Send { recipients, .. } => {
            assert_eq!(recipients, vec![b"/run/cli.sock".to_vec()]);
        }
        other => panic!("unexpected action {:?}", other),
    }
}
