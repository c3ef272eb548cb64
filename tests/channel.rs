use channel_scatter::channel::Channel;

#[test]
fn channels_in_order() {
    assert_eq!(Channel::all(), vec![Channel::Red, Channel::Green, Channel::Blue]);
}

#[test]
fn channel_names_files_and_colors() {
    assert_eq!(Channel::Red.label(), "Red");
    assert_eq!(Channel::Green.label(), "Green");
    assert_eq!(Channel::Blue.label(), "Blue");
    assert_eq!(Channel::Red.output_path(), "images/r-val.gif");
    assert_eq!(Channel::Green.output_path(), "images/g-val.gif");
    assert_eq!(Channel::Blue.output_path(), "images/b-val.gif");
    assert_eq!(Channel::Red.color(), (255, 0, 0));
    assert_eq!(Channel::Green.color(), (0, 255, 0));
    assert_eq!(Channel::Blue.color(), (0, 0, 255));
}
