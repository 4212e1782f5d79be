//! Classification of a file name as photo or video by its suffix.

use vstd::prelude::*;

verus! {

/// The lower-case form of an ASCII capital letter; any other character is
/// left as it is. None of the photo suffixes holds a character that a
/// character outside ASCII lower-cases to, so folding ASCII alone decides the
/// same names as lower-casing the whole name would.
pub open spec fn fold_char(c: char) -> char {
    if 'A' <= c && c <= 'Z' {
        ((c as u8) + 32) as char
    } else {
        c
    }
}

/// A name with every character folded to lower case.
pub open spec fn fold(name: Seq<char>) -> Seq<char> {
    Seq::new(name.len(), |i: int| fold_char(name[i]))
}

/// The suffixes, in lower case, that mark a photo.
pub open spec fn is_photo_suffix(suffix: Seq<char>) -> bool {
    ||| suffix == ".jpg"@
    ||| suffix == ".jpeg"@
    ||| suffix == ".png"@
    ||| suffix == ".webp"@
    ||| suffix == ".bmp"@
}

/// A name is a photo's when its lower-case form ends in a photo suffix.
pub open spec fn is_photo_name(name: Seq<char>) -> bool {
    let lower = fold(name);
    ||| ".jpg"@.is_suffix_of(lower)
    ||| ".jpeg"@.is_suffix_of(lower)
    ||| ".png"@.is_suffix_of(lower)
    ||| ".webp"@.is_suffix_of(lower)
    ||| ".bmp"@.is_suffix_of(lower)
}

/// The tag of a photo.
pub open spec fn photo_tag() -> Seq<char> {
    "photo"@
}

/// The tag of a video.
pub open spec fn video_tag() -> Seq<char> {
    "video"@
}

/// The tag a name is classified under: photo for a photo's name, video for
/// every other name.
pub open spec fn kind_of(name: Seq<char>) -> Seq<char> {
    if is_photo_name(name) {
        photo_tag()
    } else {
        video_tag()
    }
}

fn lower_ascii(c: char) -> (r: char)
    ensures
        r == fold_char(c),
{
    if 'A' <= c && c <= 'Z' {
        ((c as u8) + 32u8) as char
    } else {
        c
    }
}

/// Does the lower-case form of `name`, which has `len` characters, end in
/// `suffix`?
fn ends_with_folded(name: &str, len: usize, suffix: &str) -> (found: bool)
    requires
        len == name@.len(),
    ensures
        found == suffix@.is_suffix_of(fold(name@)),
{
    let width: usize = suffix.unicode_len();
    if len < width {
        return false;
    }
    let start: usize = len - width;
    let ghost tail = fold(name@).subrange(start as int, len as int);
    let mut i: usize = 0;
    while i < width
        invariant
            i <= width,
            width == suffix@.len(),
            len == name@.len(),
            start + width == len,
            tail == fold(name@).subrange(start as int, len as int),
            forall|j: int| 0 <= j < i ==> tail[j] == suffix@[j],
        decreases width - i,
    {
        let c: char = lower_ascii(name.get_char(start + i));
        if c != suffix.get_char(i) {
            return false;
        }
        i += 1;
    }
    assert(suffix@ =~= tail);
    true
}

/// Classifies a file name by its suffix alone, whatever the case of its
/// letters: `"photo"` where it ends in `.jpg`, `.jpeg`, `.png`, `.webp` or
/// `.bmp`, `"video"` for every other name, the empty one included.
pub fn kind_from_name(name: &str) -> (kind: String)
    ensures
        kind@ == kind_of(name@),
{
    let len: usize = name.unicode_len();
    if ends_with_folded(name, len, ".jpg") || ends_with_folded(name, len, ".jpeg")
        || ends_with_folded(name, len, ".png") || ends_with_folded(name, len, ".webp")
        || ends_with_folded(name, len, ".bmp") {
        "photo".to_string()
    } else {
        "video".to_string()
    }
}

/// The two tags differ, so a classification tells the two kinds apart.
pub proof fn lemma_tags_differ()
    ensures
        photo_tag() != video_tag(),
{
    reveal_strlit("photo");
    reveal_strlit("video");
    assert(photo_tag()[0] == 'p');
    assert(video_tag()[0] == 'v');
}

/// Folding a name folds each of its suffixes.
pub proof fn lemma_fold_suffix(name: Seq<char>, suffix: Seq<char>)
    requires
        suffix.is_suffix_of(name),
    ensures
        fold(suffix).is_suffix_of(fold(name)),
{
    let from = name.len() - suffix.len();
    assert(fold(suffix) =~= fold(name).subrange(from, name.len() as int)) by {
        assert forall|i: int| 0 <= i < suffix.len() implies fold(suffix)[i] == fold(name)[from + i] by {
            assert(suffix[i] == name.subrange(from, name.len() as int)[i]);
        }
    }
}

/// A name that ends in a photo suffix, in whatever case its letters are
/// written, is classified as a photo.
pub proof fn lemma_photo_suffix_in_any_case(name: Seq<char>, suffix: Seq<char>)
    requires
        suffix.is_suffix_of(name),
        is_photo_suffix(fold(suffix)),
    ensures
        is_photo_name(name),
        kind_of(name) == photo_tag(),
{
    lemma_fold_suffix(name, suffix);
}

/// A name none of whose suffixes is a photo suffix in some case is
/// classified as a video.
pub proof fn lemma_other_names_are_videos(name: Seq<char>)
    requires
        forall|suffix: Seq<char>| #[trigger]
            suffix.is_suffix_of(name) ==> !is_photo_suffix(fold(suffix)),
    ensures
        !is_photo_name(name),
        kind_of(name) == video_tag(),
{
    if is_photo_name(name) {
        let lower = fold(name);
        let found = if ".jpg"@.is_suffix_of(lower) {
            ".jpg"@
        } else if ".jpeg"@.is_suffix_of(lower) {
            ".jpeg"@
        } else if ".png"@.is_suffix_of(lower) {
            ".png"@
        } else if ".webp"@.is_suffix_of(lower) {
            ".webp"@
        } else {
            ".bmp"@
        };
        let from = name.len() - found.len();
        let suffix = name.subrange(from, name.len() as int);
        assert(suffix.is_suffix_of(name));
        assert(fold(suffix) =~= found);
        assert(is_photo_suffix(fold(suffix)));
    }
}

/// The empty name is classified as a video.
pub proof fn lemma_empty_name_is_video()
    ensures
        kind_of(Seq::<char>::empty()) == video_tag(),
{
    reveal_strlit(".jpg");
    reveal_strlit(".jpeg");
    reveal_strlit(".png");
    reveal_strlit(".webp");
    reveal_strlit(".bmp");
}

} // verus!
