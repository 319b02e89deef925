use peace_performance::taiko::reconstruct_hits;

#[test]
fn taiko_consistent_counts_are_kept() {
    let (n300, n100) = reconstruct_hits(100, 5, Some(90), Some(5));
    assert_eq!((n300, n100), (90, 5));
}

#[test]
fn taiko_missing_goes_to_n100_when_only_n300_given() {
    let (n300, n100) = reconstruct_hits(100, 5, Some(90), None);
    assert_eq!((n300, n100), (90, 5));
}

#[test]
fn taiko_missing_goes_to_n300_when_only_n100_given() {
    let (n300, n100) = reconstruct_hits(100, 5, None, Some(40));
    assert_eq!((n300, n100), (55, 40));
}

#[test]
fn taiko_overshooting_counts_are_capped() {
    let (n300, n100) = reconstruct_hits(100, 5, Some(200), Some(50));
    assert_eq!((n300, n100), (95, 0));
    assert_eq!(n300 + n100 + 5, 100);
}

#[test]
fn taiko_counts_cover_every_circle() {
    let cases: Vec<(usize, usize, Option<usize>, Option<usize>)> = vec![
        (1, 0, Some(0), None),
        (10, 10, Some(3), Some(4)),
        (500, 17, None, Some(123)),
        (500, 0, Some(250), Some(100)),
    ];

    for (circles, misses, n300, n100) in cases {
        let (full, half) = reconstruct_hits(circles, misses, n300, n100);
        assert_eq!(full + half + misses, circles);
    }
}
