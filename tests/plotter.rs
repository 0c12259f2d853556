use plot_starter::{Chart, ChartData, Color, Plotter};

fn entry_of<P: Clone>(entries: &[(usize, ChartData<P>)], id: usize) -> Option<(Vec<P>, Color)> {
    entries
        .iter()
        .find(|(i, _)| *i == id)
        .map(|(_, c)| (c.data.clone(), c.color))
}

#[test]
fn identifiers_count_up_from_zero() {
    let mut p: Plotter<(f64, f64)> = Plotter::new();
    assert_eq!(p.allocated(), 0);
    let a = Chart::on(&mut p).id;
    let b = Chart::on(&mut p).data(vec![(0.0, 1.0)]).id;
    let c = Chart::on(&mut p).color(Color::from_rgb(1, 2, 3)).id;
    assert_eq!((a, b, c), (0, 1, 2));
    assert_eq!(p.allocated(), 3);
    assert_eq!(p.next_id(), 3);
    assert_eq!(p.allocated(), 4);
}

#[test]
fn data_then_color_and_color_then_data_agree() {
    let red = Color::from_rgb(255, 0, 0);
    let mut p: Plotter<(f64, f64)> = Plotter::new();
    Chart::on(&mut p).data(vec![(1.0, 2.0)]).color(red);
    Chart::on(&mut p).color(red).data(vec![(1.0, 2.0)]);
    let all = p.take_all();
    assert_eq!(all.len(), 2);
    assert_eq!(entry_of(&all, 0), Some((vec![(1.0, 2.0)], red)));
    assert_eq!(entry_of(&all, 1), Some((vec![(1.0, 2.0)], red)));
}

#[test]
fn unset_fields_take_defaults() {
    let blue = Color::from_rgb(0, 0, 255);
    let mut p: Plotter<(f64, f64)> = Plotter::new();
    Chart::on(&mut p).color(blue);
    Chart::on(&mut p).data(vec![(3.0, 4.0), (5.0, 6.0)]);
    let all = p.take_all();
    assert_eq!(entry_of(&all, 0), Some((vec![], blue)));
    assert_eq!(entry_of(&all, 1), Some((vec![(3.0, 4.0), (5.0, 6.0)], Color::transparent())));
}

#[test]
fn last_write_wins() {
    let mut p: Plotter<i32> = Plotter::new();
    Chart::on(&mut p)
        .data(vec![1, 2])
        .color(Color::from_rgb(9, 9, 9))
        .data(vec![3])
        .color(Color::from_rgb(7, 7, 7));
    let all = p.take_all();
    assert_eq!(entry_of(&all, 0), Some((vec![3], Color::from_rgb(7, 7, 7))));
}

#[test]
fn take_all_lists_only_created_entries() {
    let mut p: Plotter<i32> = Plotter::new();
    Chart::on(&mut p);
    Chart::on(&mut p).data(vec![5]);
    Chart::on(&mut p);
    Chart::on(&mut p).color(Color::from_rgb(1, 1, 1));
    p.data(0, vec![8]);
    let all = p.take_all();
    let ids: Vec<usize> = all.iter().map(|(i, _)| *i).collect();
    assert_eq!(ids, vec![0, 1, 3]);
    assert_eq!(entry_of(&all, 0), Some((vec![8], Color::transparent())));
    assert_eq!(entry_of(&all, 2), None);
}

#[test]
fn empty_session_hands_over_nothing() {
    let p: Plotter<i32> = Plotter::new();
    assert!(p.take_all().is_empty());
}

#[test]
fn empty_data_is_kept() {
    let mut p: Plotter<(f64, f64)> = Plotter::new();
    Chart::on(&mut p).data(vec![]);
    let all = p.take_all();
    assert_eq!(entry_of(&all, 0), Some((vec![], Color::transparent())));
}

#[test]
fn two_charts_draw_instructions() {
    let red = Color::from_rgb(255, 0, 0);
    let mut p: Plotter<(f64, f64)> = Plotter::new();
    Chart::on(&mut p).data(vec![(0.0, 0.0), (1.0, 1.0)]).color(red);
    Chart::on(&mut p).data(vec![(0.0, 1.0), (1.0, 0.0)]);
    let draws: Vec<(Vec<(f64, f64)>, Color)> =
        p.take_all().into_iter().map(|(_, c)| (c.data, c.color)).collect();
    assert_eq!(draws.len(), 2);
    let a = (vec![(0.0, 0.0), (1.0, 1.0)], red);
    let b = (vec![(0.0, 1.0), (1.0, 0.0)], Color::transparent());
    assert_eq!(draws.iter().filter(|d| **d == a).count(), 1);
    assert_eq!(draws.iter().filter(|d| **d == b).count(), 1);
}

#[test]
fn color_constructors() {
    assert_eq!(Color::transparent().to_array(), [0, 0, 0, 0]);
    assert_eq!(Color::from_rgb(255, 0, 0).to_array(), [255, 0, 0, 255]);
    assert_eq!(Color::from_rgba_premultiplied(1, 2, 3, 4).to_array(), [1, 2, 3, 4]);
    assert_ne!(Color::from_rgb(0, 0, 0), Color::transparent());
}
