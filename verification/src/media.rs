//! Where each cached file lies on disk.
//!
//! Below the cache directory there is one directory per kind of file, and in
//! it one file per post, named by the post's id.

use crate::text::decimal;
use crate::text::lemma_decimal_prefix;
use crate::text::push_decimal;
use vstd::prelude::*;
use vstd::string::*;

verus! {

/// A kind of cached file whose name the post's id alone decides.
#[derive(Clone, Copy, Debug, PartialEq, Eq, Structural)]
pub enum MediaKind {
    Thumbnail,
    Sample,
    Image,
    Gif,
}

/// The name of the directory that holds the files of `kind`.
pub open spec fn dir_name(kind: MediaKind) -> Seq<char> {
    match kind {
        MediaKind::Thumbnail => "thumbnails"@,
        MediaKind::Sample => "sample"@,
        MediaKind::Image => "resized"@,
        MediaKind::Gif => "gifs"@,
    }
}

/// The end of the name of a file of `kind`, from the dot on.
pub open spec fn file_suffix(kind: MediaKind) -> Seq<char> {
    match kind {
        MediaKind::Thumbnail => ".jpg"@,
        MediaKind::Sample => ".jpg"@,
        MediaKind::Image => ".png"@,
        MediaKind::Gif => ".gif"@,
    }
}

/// The directory `name` below `cache_dir`.
pub open spec fn sub_dir(cache_dir: Seq<char>, name: Seq<char>) -> Seq<char> {
    cache_dir + "/"@ + name
}

/// The file of `kind` for the post `id`.
pub open spec fn media_path(cache_dir: Seq<char>, kind: MediaKind, id: u32) -> Seq<char> {
    sub_dir(cache_dir, dir_name(kind)) + "/"@ + decimal(id as nat) + file_suffix(kind)
}

/// The file `id`.`ext` in the directory `name` below `cache_dir`.
pub open spec fn named_path(cache_dir: Seq<char>, name: Seq<char>, id: u32, ext: Seq<char>) -> Seq<
    char,
> {
    sub_dir(cache_dir, name) + "/"@ + decimal(id as nat) + "."@ + ext
}

/// The video file of the post `id`, which keeps its extension.
pub open spec fn video_file(cache_dir: Seq<char>, id: u32, ext: Seq<char>) -> Seq<char> {
    named_path(cache_dir, "video"@, id, ext)
}

/// The image of the post `id` as it was downloaded, with its extension.
pub open spec fn original_file(cache_dir: Seq<char>, id: u32, ext: Seq<char>) -> Seq<char> {
    named_path(cache_dir, "original"@, id, ext)
}

/// No two files of the layout coincide: the path of a file tells its kind and
/// its post.
pub proof fn lemma_media_path_injective(
    cache_dir: Seq<char>,
    kind_a: MediaKind,
    id_a: u32,
    kind_b: MediaKind,
    id_b: u32,
)
    requires
        media_path(cache_dir, kind_a, id_a) == media_path(cache_dir, kind_b, id_b),
    ensures
        kind_a == kind_b,
        id_a == id_b,
{
    reveal_strlit("thumbnails");
    reveal_strlit("sample");
    reveal_strlit("resized");
    reveal_strlit("gifs");
    reveal_strlit(".jpg");
    reveal_strlit(".png");
    reveal_strlit(".gif");
    reveal_strlit("/");
    let path_a = media_path(cache_dir, kind_a, id_a);
    let path_b = media_path(cache_dir, kind_b, id_b);
    let root = cache_dir.len() as int;
    // The first letter of the directory's name tells the kind.
    assert(path_a[root + 1] == dir_name(kind_a)[0]);
    assert(path_b[root + 1] == dir_name(kind_b)[0]);
    assert(kind_a == kind_b);
    let head = sub_dir(cache_dir, dir_name(kind_a)) + "/"@;
    let tail_a = decimal(id_a as nat) + file_suffix(kind_a);
    let tail_b = decimal(id_b as nat) + file_suffix(kind_b);
    assert(path_a =~= head + tail_a);
    assert(path_b =~= head + tail_b);
    assert(tail_a =~= (head + tail_a).subrange(head.len() as int, (head + tail_a).len() as int));
    assert(tail_b =~= (head + tail_b).subrange(head.len() as int, (head + tail_b).len() as int));
    assert(file_suffix(kind_a)[0] == '.');
    lemma_decimal_prefix(id_a as nat, id_b as nat, file_suffix(kind_a), file_suffix(kind_b));
}

/// The largest width and height of an image that is shown as it is. A wider
/// or higher one is scaled down to fit.
pub const TEXTURE_SIZE: u32 = 4096;

/// Whether an image of `width` by `height` pixels has to be scaled down
/// before it is shown.
pub fn exceeds_texture(width: u32, height: u32) -> (too_large: bool)
    ensures
        too_large == (width > TEXTURE_SIZE || height > TEXTURE_SIZE),
{
    width > TEXTURE_SIZE || height > TEXTURE_SIZE
}

/// The directory `name` below `cache_dir`.
fn dir_below(cache_dir: &str, name: &str) -> (dir: String)
    ensures
        dir@ == sub_dir(cache_dir@, name@),
{
    let mut dir = String::from_str(cache_dir);
    dir.append("/");
    dir.append(name);
    dir
}

/// The directory of the thumbnails.
pub fn thumbnail_dir(cache_dir: &str) -> (dir: String)
    ensures
        dir@ == sub_dir(cache_dir@, dir_name(MediaKind::Thumbnail)),
{
    dir_below(cache_dir, "thumbnails")
}

/// The directory of the sample images.
pub fn sample_dir(cache_dir: &str) -> (dir: String)
    ensures
        dir@ == sub_dir(cache_dir@, dir_name(MediaKind::Sample)),
{
    dir_below(cache_dir, "sample")
}

/// The directory of the full images, as they are shown.
pub fn image_dir(cache_dir: &str) -> (dir: String)
    ensures
        dir@ == sub_dir(cache_dir@, dir_name(MediaKind::Image)),
{
    dir_below(cache_dir, "resized")
}

/// The directory of the GIFs.
pub fn gif_dir(cache_dir: &str) -> (dir: String)
    ensures
        dir@ == sub_dir(cache_dir@, dir_name(MediaKind::Gif)),
{
    dir_below(cache_dir, "gifs")
}

/// The directory of the videos.
pub fn video_dir(cache_dir: &str) -> (dir: String)
    ensures
        dir@ == sub_dir(cache_dir@, "video"@),
{
    dir_below(cache_dir, "video")
}

/// The directory of the full images, as they were downloaded.
pub fn original_dir(cache_dir: &str) -> (dir: String)
    ensures
        dir@ == sub_dir(cache_dir@, "original"@),
{
    dir_below(cache_dir, "original")
}

/// The directory that holds the files of `kind`.
pub fn media_dir(cache_dir: &str, kind: MediaKind) -> (dir: String)
    ensures
        dir@ == sub_dir(cache_dir@, dir_name(kind)),
{
    match kind {
        MediaKind::Thumbnail => thumbnail_dir(cache_dir),
        MediaKind::Sample => sample_dir(cache_dir),
        MediaKind::Image => image_dir(cache_dir),
        MediaKind::Gif => gif_dir(cache_dir),
    }
}

/// The file of `kind` for the post `id`.
pub fn media_file(cache_dir: &str, kind: MediaKind, id: u32) -> (path: String)
    ensures
        path@ == media_path(cache_dir@, kind, id),
{
    let mut path = media_dir(cache_dir, kind);
    path.append("/");
    push_decimal(&mut path, id as u64);
    match kind {
        MediaKind::Thumbnail => path.append(".jpg"),
        MediaKind::Sample => path.append(".jpg"),
        MediaKind::Image => path.append(".png"),
        MediaKind::Gif => path.append(".gif"),
    }
    path
}

/// The file `id`.`ext` in `dir`.
fn file_in(dir: String, id: u32, ext: &str) -> (path: String)
    ensures
        path@ == dir@ + "/"@ + decimal(id as nat) + "."@ + ext@,
{
    let mut path = dir;
    path.append("/");
    push_decimal(&mut path, id as u64);
    path.append(".");
    path.append(ext);
    path
}

/// The video file of the post `id`, which keeps its extension.
pub fn video_path(cache_dir: &str, id: u32, ext: &str) -> (path: String)
    ensures
        path@ == video_file(cache_dir@, id, ext@),
{
    file_in(video_dir(cache_dir), id, ext)
}

/// The image of the post `id` as it was downloaded, with its extension.
pub fn original_path(cache_dir: &str, id: u32, ext: &str) -> (path: String)
    ensures
        path@ == original_file(cache_dir@, id, ext@),
{
    file_in(original_dir(cache_dir), id, ext)
}

} // verus!
