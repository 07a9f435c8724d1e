use led_echo::roulette::next_xy;

#[test]
fn roulette_walks_the_ring() {
    let mut p = (0usize, 0usize);
    let mut seen: Vec<(usize, usize)> = Vec::new();
    for _ in 0..16 {
        seen.push(p);
        p = next_xy(p.0, p.1);
    }
    assert_eq!(p, (0, 0));
    assert_eq!(seen[4], (4, 0));
    assert_eq!(seen[8], (4, 4));
    assert_eq!(seen[12], (0, 4));
    let mut sorted = seen.clone();
    sorted.sort();
    sorted.dedup();
    assert_eq!(sorted.len(), 16);
}

#[test]
fn roulette_inner_cell_restarts() {
    assert_eq!(next_xy(2, 2), (0, 0));
    assert_eq!(next_xy(0, 3), (0, 2));
    assert_eq!(next_xy(4, 4), (3, 4));
}
