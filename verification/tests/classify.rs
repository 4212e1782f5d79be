use media_queue::classify::kind_from_name;

fn lowered_kind(name: &str) -> &'static str {
    let lower = name.to_lowercase();
    let photo = [".jpg", ".jpeg", ".png", ".webp", ".bmp"].iter().any(|s| lower.ends_with(s));
    if photo {
        "photo"
    } else {
        "video"
    }
}

#[test]
fn lower_case_photo_suffixes() {
    for name in ["a.jpg", "a.jpeg", "a.png", "a.webp", "a.bmp"] {
        assert_eq!(kind_from_name(name), "photo", "{name}");
    }
}

#[test]
fn upper_case_photo_suffixes() {
    for name in ["A.JPG", "A.JPEG", "A.PNG", "A.WEBP", "A.BMP"] {
        assert_eq!(kind_from_name(name), "photo", "{name}");
    }
}

#[test]
fn mixed_case_photo_suffixes() {
    for name in ["holiday.JpG", "holiday.jPeG", "holiday.Png", "holiday.wEBp", "holiday.bmP"] {
        assert_eq!(kind_from_name(name), "photo", "{name}");
    }
}

#[test]
fn suffix_alone_is_a_photo() {
    assert_eq!(kind_from_name(".jpg"), "photo");
    assert_eq!(kind_from_name(".JPEG"), "photo");
}

#[test]
fn empty_name_is_a_video() {
    assert_eq!(kind_from_name(""), "video");
}

#[test]
fn name_without_extension_is_a_video() {
    assert_eq!(kind_from_name("README"), "video");
    assert_eq!(kind_from_name("jpg"), "video");
    assert_eq!(kind_from_name("png"), "video");
}

#[test]
fn other_extensions_are_videos() {
    for name in ["clip.mp4", "clip.mov", "notes.txt", "a.gif", "a.jpg.txt", "a.jpgx", "a.jp", "a.jpg "] {
        assert_eq!(kind_from_name(name), "video", "{name}");
    }
}

#[test]
fn dot_is_part_of_the_suffix() {
    assert_eq!(kind_from_name("ajpg"), "video");
    assert_eq!(kind_from_name("a,png"), "video");
    assert_eq!(kind_from_name("@bmp"), "video");
}

#[test]
fn characters_next_to_the_letters_are_not_folded() {
    // '@' and '[' stand just outside 'A'..='Z'; '`' and '{' just outside 'a'..='z'.
    assert_eq!(kind_from_name("a.jp\u{47}"), "photo");
    assert_eq!(kind_from_name("a.\u{4a}pg"), "photo");
    assert_eq!(kind_from_name("a.jp\u{27}"), "video");
    assert_eq!(kind_from_name("a\u{e}jpg"), "video");
}

#[test]
fn names_outside_ascii() {
    assert_eq!(kind_from_name("\u{444}\u{43e}\u{442}\u{43e}.JPG"), "photo");
    assert_eq!(kind_from_name("\u{444}\u{43e}\u{442}\u{43e}.mp4"), "video");
    assert_eq!(kind_from_name("caf\u{e9}.WebP"), "photo");
    assert_eq!(kind_from_name("a.jp\u{11f}"), "video");
}

#[test]
fn agrees_with_lower_casing_the_whole_name() {
    let names = [
        "",
        ".",
        ".jpg",
        "x.JPG",
        "x.Jpeg",
        "x.PNG",
        "x.webP",
        "x.BMP",
        "x.bmp.",
        "x.mp4",
        "x.pn\u{212a}",
        "x.\u{212a}pg",
        "x.\u{130}pg",
        "x.jp\u{130}",
        "\u{130}.png",
        "\u{3a3}.JPG",
        "x.JPG\u{3a3}",
        "\u{1e9e}.bmp",
        "x.\u{ff2a}\u{ff30}\u{ff27}",
        "\u{1f600}.webp",
    ];
    for name in names {
        assert_eq!(kind_from_name(name), lowered_kind(name), "{name:?}");
    }
}
