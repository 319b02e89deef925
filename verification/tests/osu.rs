use peace_performance::osu::max_combo;
use peace_performance::osu::ObjectKind;

#[test]
fn osu_max_combo_counts_each_kind() {
    let kinds = vec![
        ObjectKind::Circle,
        ObjectKind::Slider { ticks: 3 },
        ObjectKind::Spinner,
        ObjectKind::Hold,
        ObjectKind::Circle,
    ];

    assert_eq!(max_combo(&kinds), 6);
}

#[test]
fn osu_max_combo_of_no_objects_is_zero() {
    let kinds: Vec<ObjectKind> = Vec::new();

    assert_eq!(max_combo(&kinds), 0);
}

#[test]
fn osu_max_combo_clamps_at_the_machine_limit() {
    let kinds = vec![
        ObjectKind::Slider { ticks: usize::MAX },
        ObjectKind::Circle,
        ObjectKind::Slider { ticks: usize::MAX },
    ];

    assert_eq!(max_combo(&kinds), usize::MAX);
}
