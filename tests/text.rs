use channel_scatter::channel::Channel;
use channel_scatter::text::{caption, strip_line_ending};

#[test]
fn strips_unix_and_windows_line_endings() {
    assert_eq!(strip_line_ending("photo.png\n"), "photo.png");
    assert_eq!(strip_line_ending("photo.png\r\n"), "photo.png");
    assert_eq!(strip_line_ending("photo.png"), "photo.png");
    assert_eq!(strip_line_ending("photo.png\r"), "photo.png");
    assert_eq!(strip_line_ending("photo.png\n\n"), "photo.png\n");
    assert_eq!(strip_line_ending(""), "");
    assert_eq!(strip_line_ending("\n"), "");
    assert_eq!(strip_line_ending("bild-ä.png\r\n"), "bild-ä.png");
}

#[test]
fn captions_name_channel_and_path() {
    assert_eq!(caption(Channel::Red, "a.png"), "Red values of a.png");
    assert_eq!(caption(Channel::Green, "x/y.jpg"), "Green values of x/y.jpg");
    assert_eq!(caption(Channel::Blue, ""), "Blue values of ");
}
