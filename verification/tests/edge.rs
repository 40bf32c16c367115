use co2::button::Button;

#[test]
fn edge_on_release_only() {
    let mut button = Button::new();
    assert!(!button.check_rising_edge(false));
    assert!(!button.check_rising_edge(true));
    assert!(!button.check_rising_edge(true));
    assert!(button.check_rising_edge(false));
    assert!(!button.check_rising_edge(false));
}

#[test]
fn no_two_edges_in_a_row() {
    let mut button = Button::new();
    let samples = [true, false, true, false, false, true, true, false];
    let mut edges = Vec::new();
    for s in samples {
        edges.push(button.check_rising_edge(s));
    }
    assert_eq!(edges, vec![false, true, false, true, false, false, false, true]);
    for pair in edges.windows(2) {
        assert!(!(pair[0] && pair[1]));
    }
}

#[test]
fn edges_count_releases_over_a_run() {
    let samples = [false, true, true, false, true, false, false, true, true, true, false];
    let mut button = Button::new();
    let mut previous = false;
    let mut edges = 0;
    let mut releases = 0;
    for s in samples {
        let edge = button.check_rising_edge(s);
        assert_eq!(edge, previous && !s);
        if previous && !s {
            releases += 1;
        }
        if edge {
            edges += 1;
        }
        previous = s;
    }
    assert_eq!(edges, 3);
    assert_eq!(edges, releases);
}
