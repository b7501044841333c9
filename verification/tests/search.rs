use std::collections::HashMap;
use x52_spotify::spotify::search::{Answer, Probe, SearchResult, SearchStep, WindowSearch, TARGET};
use x52_spotify::spotify::window::SpotifyError;

struct FakeWindow {
    class: Vec<u8>,
    title: Vec<u8>,
    children: Vec<u32>,
}

struct FakeDisplay {
    windows: HashMap<u32, FakeWindow>,
    asked: Vec<Probe>,
}

impl FakeDisplay {
    fn new() -> FakeDisplay {
        FakeDisplay { windows: HashMap::new(), asked: Vec::new() }
    }

    fn window(mut self, id: u32, class: &[u8], title: &[u8], children: &[u32]) -> FakeDisplay {
        self.windows.insert(
            id,
            FakeWindow { class: class.to_vec(), title: title.to_vec(), children: children.to_vec() },
        );
        self
    }

    fn answer(&mut self, probe: Probe) -> Answer {
        self.asked.push(probe);
        match probe {
            Probe::ClassOf(id) => Answer::Class(self.windows[&id].class.clone()),
            Probe::TitleOf(id) => Answer::Title(self.windows[&id].title.clone()),
            Probe::ChildrenOf(id) => Answer::Children(self.windows[&id].children.clone()),
        }
    }

    fn search(&mut self, root: u32) -> SearchResult {
        let mut search = WindowSearch::new(root);
        loop {
            let answer = self.answer(search.probe());
            match search.advance(answer) {
                SearchStep::Ask(next) => search = next,
                SearchStep::Done(result) => return result,
            }
        }
    }

    fn classes_asked(&self) -> Vec<u32> {
        self.asked
            .iter()
            .filter_map(|probe| match probe {
                Probe::ClassOf(id) => Some(*id),
                _ => None,
            })
            .collect()
    }

    fn titles_asked(&self) -> Vec<u32> {
        self.asked
            .iter()
            .filter_map(|probe| match probe {
                Probe::TitleOf(id) => Some(*id),
                _ => None,
            })
            .collect()
    }
}

const PLAYER: &[u8] = b"spotify\0Spotify\0";
const TERMINAL: &[u8] = b"xterm\0XTerm\0";

fn found(result: &SearchResult, window: u32, title: &str) -> bool {
    matches!(result, SearchResult::Found(w, t) if *w == window && t == title)
}

#[test]
fn the_target_is_the_players_instance_name() {
    assert_eq!(TARGET, "spotify");
}

#[test]
fn search_starts_with_the_class_of_the_root() {
    assert_eq!(WindowSearch::new(42).probe(), Probe::ClassOf(42));
}

#[test]
fn search_of_a_lone_root_finds_nothing() {
    let mut display = FakeDisplay::new().window(1, b"", b"", &[]);
    assert!(matches!(display.search(1), SearchResult::NotFound));
    assert_eq!(display.asked, vec![Probe::ClassOf(1), Probe::ChildrenOf(1)]);
}

#[test]
fn search_finds_the_root_itself() {
    let mut display = FakeDisplay::new().window(1, PLAYER, b"A - B", &[2]).window(2, PLAYER, b"C - D", &[]);
    assert!(found(&display.search(1), 1, "A - B"));
    assert_eq!(display.asked, vec![Probe::ClassOf(1), Probe::TitleOf(1)]);
}

#[test]
fn search_asks_for_titles_of_candidates_only() {
    let mut display = FakeDisplay::new()
        .window(1, b"", b"root", &[2, 3])
        .window(2, TERMINAL, b"spotify", &[])
        .window(3, PLAYER, b"Artist - Title", &[]);
    assert!(found(&display.search(1), 3, "Artist - Title"));
    assert_eq!(display.titles_asked(), vec![3]);
    assert_eq!(
        display.asked,
        vec![
            Probe::ClassOf(1),
            Probe::ChildrenOf(1),
            Probe::ClassOf(2),
            Probe::ChildrenOf(2),
            Probe::ClassOf(3),
            Probe::TitleOf(3),
        ]
    );
}

#[test]
fn search_walks_the_tree_in_pre_order() {
    //        1
    //      / | \
    //     2  5  6
    //    / \     \
    //   3   4     7
    let mut display = FakeDisplay::new()
        .window(1, b"", b"", &[2, 5, 6])
        .window(2, TERMINAL, b"", &[3, 4])
        .window(3, TERMINAL, b"", &[])
        .window(4, TERMINAL, b"", &[])
        .window(5, TERMINAL, b"", &[])
        .window(6, TERMINAL, b"", &[7])
        .window(7, TERMINAL, b"", &[]);
    assert!(matches!(display.search(1), SearchResult::NotFound));
    assert_eq!(display.classes_asked(), vec![1, 2, 3, 4, 5, 6, 7]);
    assert!(display.titles_asked().is_empty());
}

#[test]
fn search_takes_the_first_match_in_pre_order() {
    let mut display = FakeDisplay::new()
        .window(1, b"", b"", &[2, 5])
        .window(2, TERMINAL, b"", &[3, 4])
        .window(3, TERMINAL, b"", &[])
        .window(4, PLAYER, b"deep - first", &[])
        .window(5, PLAYER, b"shallow - second", &[]);
    assert!(found(&display.search(1), 4, "deep - first"));
    assert_eq!(display.classes_asked(), vec![1, 2, 3, 4]);
}

#[test]
fn search_prefers_a_window_to_its_children() {
    let mut display = FakeDisplay::new()
        .window(1, PLAYER, b"parent", &[2])
        .window(2, PLAYER, b"child", &[]);
    assert!(found(&display.search(1), 1, "parent"));
}

#[test]
fn search_passes_over_a_window_titled_like_the_target() {
    let mut display = FakeDisplay::new()
        .window(1, b"", b"", &[2, 4])
        .window(2, PLAYER, b"spotify", &[3])
        .window(3, PLAYER, b"Artist - Title", &[])
        .window(4, PLAYER, b"Other - Title", &[]);
    assert!(found(&display.search(1), 3, "Artist - Title"));
    assert_eq!(
        display.asked,
        vec![
            Probe::ClassOf(1),
            Probe::ChildrenOf(1),
            Probe::ClassOf(2),
            Probe::TitleOf(2),
            Probe::ChildrenOf(2),
            Probe::ClassOf(3),
            Probe::TitleOf(3),
        ]
    );
}

#[test]
fn search_finds_nothing_where_only_stand_ins_exist() {
    let mut display = FakeDisplay::new()
        .window(1, b"", b"", &[2])
        .window(2, PLAYER, b"spotify", &[]);
    assert!(matches!(display.search(1), SearchResult::NotFound));
}

#[test]
fn search_matches_the_instance_name_exactly() {
    let mut display = FakeDisplay::new()
        .window(1, b"", b"", &[2, 3, 4, 5])
        .window(2, b"Spotify\0Spotify\0", b"wrong case", &[])
        .window(3, b"spotify \0Spotify\0", b"trailing space", &[])
        .window(4, b"xterm\0spotify\0", b"class only", &[])
        .window(5, b"spotify", b"no zero byte", &[]);
    assert!(matches!(display.search(1), SearchResult::NotFound));
    assert!(display.titles_asked().is_empty());
}

#[test]
fn search_decides_by_the_instance_name_alone() {
    let mut display = FakeDisplay::new()
        .window(1, b"", b"", &[2, 3])
        .window(2, b"spotify\0Spot\xc3\0", b"Artist - Title", &[4])
        .window(3, PLAYER, b"Other - Title", &[])
        .window(4, PLAYER, b"Child - Title", &[]);
    assert!(found(&display.search(1), 2, "Artist - Title"));
    assert_eq!(
        display.asked,
        vec![Probe::ClassOf(1), Probe::ChildrenOf(1), Probe::ClassOf(2), Probe::TitleOf(2)]
    );
    let mut display = FakeDisplay::new().window(7, b"spotify\0\xff\xff", b"A - B", &[]);
    assert!(found(&display.search(7), 7, "A - B"));
    let mut display = FakeDisplay::new().window(7, b"spotify\0\0", b"A - B", &[]);
    assert!(found(&display.search(7), 7, "A - B"));
}

#[test]
fn search_passes_over_an_instance_name_that_is_not_utf8() {
    let mut display = FakeDisplay::new()
        .window(1, b"spotify\xff\0Spotify\0", b"A - B", &[2])
        .window(2, PLAYER, b"C - D", &[]);
    assert!(found(&display.search(1), 2, "C - D"));
    assert_eq!(display.titles_asked(), vec![2]);
}

#[test]
fn search_accepts_an_empty_title() {
    let mut display = FakeDisplay::new().window(1, PLAYER, b"", &[]);
    assert!(found(&display.search(1), 1, ""));
}

#[test]
fn search_fails_on_a_candidate_with_an_unreadable_title() {
    let mut display = FakeDisplay::new()
        .window(1, b"", b"", &[2, 3])
        .window(2, PLAYER, b"\xff\xfe", &[])
        .window(3, PLAYER, b"Artist - Title", &[]);
    assert!(matches!(
        display.search(1),
        SearchResult::Failed(SpotifyError::TitleNotUTF8 { .. })
    ));
    assert_eq!(display.classes_asked(), vec![1, 2]);
}

#[test]
fn search_decodes_the_title() {
    let mut display = FakeDisplay::new().window(9, PLAYER, "Björk - Jóga".as_bytes(), &[]);
    assert!(found(&display.search(9), 9, "Björk - Jóga"));
}

#[test]
fn answer_to_another_question_changes_nothing() {
    let search = WindowSearch::new(1);
    let search = match search.advance(Answer::Children(vec![2, 3])) {
        SearchStep::Ask(next) => next,
        SearchStep::Done(result) => panic!("ended with {:?}", result),
    };
    assert_eq!(search.probe(), Probe::ClassOf(1));
    let search = match search.advance(Answer::Title(b"Artist - Title".to_vec())) {
        SearchStep::Ask(next) => next,
        SearchStep::Done(result) => panic!("ended with {:?}", result),
    };
    assert_eq!(search.probe(), Probe::ClassOf(1));
    let search = match search.advance(Answer::Class(PLAYER.to_vec())) {
        SearchStep::Ask(next) => next,
        SearchStep::Done(result) => panic!("ended with {:?}", result),
    };
    assert_eq!(search.probe(), Probe::TitleOf(1));
    let search = match search.advance(Answer::Class(PLAYER.to_vec())) {
        SearchStep::Ask(next) => next,
        SearchStep::Done(result) => panic!("ended with {:?}", result),
    };
    assert_eq!(search.probe(), Probe::TitleOf(1));
    assert!(matches!(
        search.advance(Answer::Title(b"Artist - Title".to_vec())),
        SearchStep::Done(SearchResult::Found(1, _))
    ));
}

#[test]
fn children_come_before_the_windows_that_waited() {
    let search = WindowSearch::new(1);
    let mut probes = Vec::new();
    let mut step = search.advance(Answer::Class(Vec::new()));
    let answers = vec![
        Answer::Children(vec![10, 20]),
        Answer::Class(Vec::new()),
        Answer::Children(vec![11, 12]),
        Answer::Class(Vec::new()),
        Answer::Children(Vec::new()),
        Answer::Class(Vec::new()),
        Answer::Children(Vec::new()),
        Answer::Class(Vec::new()),
        Answer::Children(Vec::new()),
    ];
    for answer in answers {
        let search = match step {
            SearchStep::Ask(next) => next,
            SearchStep::Done(result) => panic!("ended with {:?}", result),
        };
        probes.push(search.probe());
        step = search.advance(answer);
    }
    assert!(matches!(step, SearchStep::Done(SearchResult::NotFound)));
    assert_eq!(
        probes,
        vec![
            Probe::ChildrenOf(1),
            Probe::ClassOf(10),
            Probe::ChildrenOf(10),
            Probe::ClassOf(11),
            Probe::ChildrenOf(11),
            Probe::ClassOf(12),
            Probe::ChildrenOf(12),
            Probe::ClassOf(20),
            Probe::ChildrenOf(20),
        ]
    );
}
