//! Preparing documents for recognition: the page numbers of rendered PDF
//! pages and their order, the names of prepared images, the EXIF
//! orientation and the image operations that undo it, and when an image is
//! scaled down.  Decoding, rendering and encoding images is the caller's
//! part.
use vstd::prelude::*;

use crate::text::{
    chars_of, dec, first_piece, first_piece_chars, parse_unsigned, parse_usize, push_str, push_usize,
    slice_chars, string_from_chars, push_i64, dec_int,
};

verus! {

pub struct RenderedPdfPage {
    pub page_number: usize,
    pub image_path: std::path::PathBuf,
}

pub struct PreparedImage {
    pub image_path: std::path::PathBuf,
    pub thumbnail_path: std::path::PathBuf,
    pub mime_type: String,
}

/// The position of the last `c` in `s`.
pub open spec fn last_index_of(s: Seq<char>, c: char) -> Option<int>
    decreases s.len(),
{
    if s.len() == 0 {
        None
    } else if s.last() == c {
        Some(s.len() - 1)
    } else {
        last_index_of(s.drop_last(), c)
    }
}

proof fn lemma_last_index_of(s: Seq<char>, c: char)
    ensures
        last_index_of(s, c) matches Some(i) ==> 0 <= i < s.len() && s[i] == c,
    decreases s.len(),
{
    if s.len() > 0 && s.last() != c {
        lemma_last_index_of(s.drop_last(), c);
    }
}

/// The page number of a page rendered as `<prefix>-<number>`: the text
/// after the last `-`, read as a number.
pub open spec fn page_number_spec(stem: Seq<char>) -> Option<nat> {
    match last_index_of(stem, '-') {
        Some(i) => parse_unsigned(stem.skip(i + 1), usize::MAX as nat),
        None => None,
    }
}

pub fn page_number_from_stem(stem: &str) -> (r: Option<usize>)
    ensures
        match r {
            Some(n) => page_number_spec(stem@) == Some(n as nat),
            None => page_number_spec(stem@) is None,
        },
{
    let s = chars_of(stem);
    let mut i: usize = s.len();
    assert(s@.take(s.len() as int) =~= s@);
    while i > 0
        invariant
            i <= s.len(),
            s@ == stem@,
            last_index_of(s@, '-') == last_index_of(s@.take(i as int), '-'),
        decreases i,
    {
        let ghost t = s@.take(i as int);
        assert(t.drop_last() =~= s@.take(i - 1));
        if s[i - 1] == '-' {
            let suffix = slice_chars(&s, i, s.len());
            assert(suffix@ =~= s@.skip(i as int));
            return parse_usize(&suffix);
        }
        i -= 1;
    }
    None
}

/// The name of a prepared image: `page-<n>` for a PDF page, `image` for an
/// image file.
pub fn prepared_image_label(page_number: Option<usize>) -> (r: String)
    ensures
        r@ == match page_number {
            Some(n) => "page-"@ + dec(n as nat),
            None => "image"@,
        },
{
    match page_number {
        Some(n) => {
            let mut v: Vec<char> = Vec::new();
            push_str(&mut v, "page-");
            push_usize(&mut v, n);
            string_from_chars(v.as_slice())
        },
        None => "image".to_owned(),
    }
}

/// Rendered pages in page order.
pub open spec fn sorted_pages(v: Seq<(usize, String)>) -> bool {
    forall|a: int, b: int| 0 <= a < b < v.len() ==> v[a].0 <= v[b].0
}

/// Orders rendered pages by page number (the listing of a directory comes
/// in no particular order).
pub fn order_pages(pages: Vec<(usize, String)>) -> (r: Vec<(usize, String)>)
    ensures
        sorted_pages(r@),
        r@.to_multiset() == pages@.to_multiset(),
{
    let mut r: Vec<(usize, String)> = Vec::new();
    let mut rest = pages;
    let ghost original = rest@;
    proof {
        vstd::seq_lib::lemma_multiset_commutative(Seq::<(usize, String)>::empty(), original);
    }
    assert(r@ + rest@ =~= original);
    while rest.len() > 0
        invariant
            sorted_pages(r@),
            (r@ + rest@).to_multiset() == original.to_multiset(),
        decreases rest.len(),
    {
        let ghost before_r = r@;
        let ghost before_rest = rest@;
        let item = rest.pop().unwrap();
        assert(before_rest =~= rest@.push(item));
        // insert `item` after every page with a number not above it
        let mut k: usize = r.len();
        while k > 0 && r[k - 1].0 > item.0
            invariant
                k <= r.len(),
                r@ == before_r,
                sorted_pages(r@),
                forall|j: int| k <= j < r.len() ==> r@[j].0 > item.0,
            decreases k,
        {
            k -= 1;
        }
        r.insert(k, item);
        assert(r@ =~= before_r.insert(k as int, item));
        assert forall|a: int, b: int| 0 <= a < b < r@.len() implies r@[a].0 <= r@[b].0 by {
            if b < k {
            } else if a < k && b == k {
                if k > 0 {
                    assert(before_r[k - 1].0 <= item.0);
                    assert(before_r[a].0 <= before_r[k - 1].0);
                }
            } else if a < k && b > k {
                assert(r@[b] == before_r[b - 1]);
            } else if a == k {
                assert(r@[b] == before_r[b - 1]);
            } else {
                assert(r@[a] == before_r[a - 1]);
                assert(r@[b] == before_r[b - 1]);
            }
        }
        proof {
            broadcast use vstd::multiset::group_multiset_axioms;

            vstd::seq_lib::to_multiset_insert(before_r, k as int, item);
            vstd::seq_lib::to_multiset_build(rest@, item);
            vstd::seq_lib::lemma_multiset_commutative(before_r, before_rest);
            vstd::seq_lib::lemma_multiset_commutative(r@, rest@);
            assert(r@.to_multiset().add(rest@.to_multiset()) =~= before_r.to_multiset().add(
                before_rest.to_multiset(),
            ));
        }
    }
    assert(r@ + rest@ =~= r@);
    r
}

/// The EXIF orientation read from an image: a value from 1 to 8, and 1
/// (upright) when absent or out of range.
pub fn exif_orientation(value: Option<u32>) -> (r: u32)
    ensures
        r == match value {
            Some(v) => if 1 <= v <= 8 {
                v
            } else {
                1
            },
            None => 1,
        },
        1 <= r <= 8,
{
    match value {
        Some(v) => if 1 <= v && v <= 8 {
            v
        } else {
            1
        },
        None => 1,
    }
}

/// An operation on an image.
#[derive(PartialEq, Eq, Structural, Clone, Copy)]
pub enum ImageOp {
    FlipHorizontal,
    FlipVertical,
    Rotate90,
    Rotate180,
    Rotate270,
}

/// The operations that turn an image stored with an EXIF orientation
/// upright, in order.
pub open spec fn orientation_ops_spec(orientation: u32) -> Seq<ImageOp> {
    if orientation == 2 {
        seq![ImageOp::FlipHorizontal]
    } else if orientation == 3 {
        seq![ImageOp::Rotate180]
    } else if orientation == 4 {
        seq![ImageOp::FlipVertical]
    } else if orientation == 5 {
        seq![ImageOp::FlipHorizontal, ImageOp::Rotate90]
    } else if orientation == 6 {
        seq![ImageOp::Rotate90]
    } else if orientation == 7 {
        seq![ImageOp::FlipHorizontal, ImageOp::Rotate270]
    } else if orientation == 8 {
        seq![ImageOp::Rotate270]
    } else {
        Seq::empty()
    }
}

pub fn orientation_ops(orientation: u32) -> (r: Vec<ImageOp>)
    ensures
        r@ == orientation_ops_spec(orientation),
{
    let mut r: Vec<ImageOp> = Vec::new();
    if orientation == 2 {
        r.push(ImageOp::FlipHorizontal);
    } else if orientation == 3 {
        r.push(ImageOp::Rotate180);
    } else if orientation == 4 {
        r.push(ImageOp::FlipVertical);
    } else if orientation == 5 {
        r.push(ImageOp::FlipHorizontal);
        r.push(ImageOp::Rotate90);
    } else if orientation == 6 {
        r.push(ImageOp::Rotate90);
    } else if orientation == 7 {
        r.push(ImageOp::FlipHorizontal);
        r.push(ImageOp::Rotate270);
    } else if orientation == 8 {
        r.push(ImageOp::Rotate270);
    }
    assert(r@ =~= orientation_ops_spec(orientation));
    r
}

/// An image is scaled down (never up) when a side exceeds the limit.
pub fn needs_resize(width: u32, height: u32, max_dimension: u32) -> (b: bool)
    ensures
        b == (width > max_dimension || height > max_dimension),
{
    width > max_dimension || height > max_dimension
}

/// The stored message of a failed renderer: its error output cut to 800
/// characters.
pub fn renderer_error_text(stderr: &str) -> (r: String)
    ensures
        r@ == crate::llm::truncate_spec(stderr@, 800),
{
    crate::llm::truncate(stderr, 800)
}

/// The first page of a stored page range such as `3` or `3-4`: the text
/// before the first `-` read as a number, else 1.
pub open spec fn first_page_spec(range: Seq<char>) -> nat {
    match parse_unsigned(first_piece(range, seq!['-']), usize::MAX as nat) {
        Some(n) => n,
        None => 1,
    }
}

pub open spec fn thumbnail_names_spec(range: Option<Seq<char>>) -> Seq<Seq<char>> {
    match range {
        Some(r) => seq!["page-"@ + dec(first_page_spec(r)) + ".jpg"@, "image.jpg"@],
        None => seq!["image.jpg"@],
    }
}

/// The preview files that may show an invoice, in the order in which they
/// are tried: the rendered page where the invoice starts, when it came from
/// a page, then the prepared image. The caller takes the first that exists
/// in the preview directory of the invoice's raw file.
pub fn thumbnail_file_names(source_page_range: Option<&str>) -> (r: Vec<String>)
    ensures
        crate::xlsx::string_views(r@) == thumbnail_names_spec(crate::search::opt_str_view(source_page_range)),
{
    let mut names: Vec<String> = Vec::new();
    match source_page_range {
        Some(range) => {
            let chars = chars_of(range);
            let mut dash: Vec<char> = Vec::new();
            dash.push('-');
            assert(dash@ =~= seq!['-']);
            let first = first_piece_chars(&chars, &dash);
            let page: usize = match parse_usize(&first) {
                Some(n) => n,
                None => 1,
            };
            let mut v: Vec<char> = Vec::new();
            push_str(&mut v, "page-");
            push_usize(&mut v, page);
            push_str(&mut v, ".jpg");
            names.push(string_from_chars(v.as_slice()));
        },
        None => {},
    }
    names.push("image.jpg".to_string());
    proof {
        reveal_strlit("image.jpg");
        assert(crate::xlsx::string_views(names@) =~= thumbnail_names_spec(
            crate::search::opt_str_view(source_page_range),
        ));
    }
    names
}


pub open spec fn thumbnail_candidates_spec(raw_file_id: i64, range: Option<Seq<char>>) -> Seq<Seq<char>> {
    thumbnail_names_spec(range).map_values(
        |n: Seq<char>| "previews/"@ + dec_int(raw_file_id as int) + "/"@ + n,
    )
}

/// The preview files of an invoice, relative to the thumbnails directory,
/// in the order in which they are tried: `previews/<raw file id>/` and the
/// names of `thumbnail_file_names`.
pub fn thumbnail_candidates(raw_file_id: i64, source_page_range: Option<&str>) -> (r: Vec<String>)
    ensures
        crate::xlsx::string_views(r@) == thumbnail_candidates_spec(
            raw_file_id,
            crate::search::opt_str_view(source_page_range),
        ),
{
    let names = thumbnail_file_names(source_page_range);
    let ghost nv = crate::xlsx::string_views(names@);
    let mut r: Vec<String> = Vec::new();
    let mut i: usize = 0;
    while i < names.len()
        invariant
            i <= names.len(),
            nv == crate::xlsx::string_views(names@),
            crate::xlsx::string_views(r@) =~= nv.take(i as int).map_values(
                |n: Seq<char>| "previews/"@ + dec_int(raw_file_id as int) + "/"@ + n,
            ),
        decreases names.len() - i,
    {
        let mut v: Vec<char> = Vec::new();
        push_str(&mut v, "previews/");
        push_i64(&mut v, raw_file_id);
        push_str(&mut v, "/");
        push_str(&mut v, names[i].as_str());
        let ghost before = r@;
        r.push(string_from_chars(v.as_slice()));
        proof {
            assert(crate::xlsx::string_views(r@) =~= crate::xlsx::string_views(before).push(v@));
            assert(nv.take(i as int + 1) =~= nv.take(i as int).push(nv[i as int]));
        }
        i += 1;
    }
    proof {
        assert(nv.take(names.len() as int) =~= nv);
    }
    r
}

/// The first candidate that exists; `exists[k]` tells whether candidate `k`
/// exists (a missing entry counts as not existing).
pub open spec fn first_existing(candidates: Seq<Seq<char>>, exists: Seq<bool>) -> Option<Seq<char>>
    decreases candidates.len(),
{
    if candidates.len() == 0 {
        None
    } else if exists.len() > 0 && exists[0] {
        Some(candidates[0])
    } else {
        first_existing(candidates.drop_first(), if exists.len() > 0 {
            exists.drop_first()
        } else {
            exists
        })
    }
}

/// The preview shown for an invoice: the first of its candidates that
/// exists, none when none does.
pub fn thumbnail_path(raw_file_id: i64, source_page_range: Option<&str>, exists: &Vec<bool>) -> (r: Option<
    String,
>)
    ensures
        crate::search::ostr(r) == first_existing(
            thumbnail_candidates_spec(raw_file_id, crate::search::opt_str_view(source_page_range)),
            exists@,
        ),
{
    let mut candidates = thumbnail_candidates(raw_file_id, source_page_range);
    let ghost cv = crate::xlsx::string_views(candidates@);
    proof {
        assert(cv.skip(0) =~= cv);
        assert(exists@.skip(0) =~= exists@);
    }
    let mut i: usize = 0;
    while i < candidates.len()
        invariant
            i <= candidates.len(),
            cv == crate::xlsx::string_views(candidates@),
            cv == thumbnail_candidates_spec(raw_file_id, crate::search::opt_str_view(source_page_range)),
            first_existing(cv, exists@) == first_existing(cv.skip(i as int), if i <= exists@.len() {
                exists@.skip(i as int)
            } else {
                Seq::<bool>::empty()
            }),
        decreases candidates.len() - i,
    {
        let ghost rest = cv.skip(i as int);
        let ghost ex = if i <= exists@.len() {
            exists@.skip(i as int)
        } else {
            Seq::<bool>::empty()
        };
        assert(rest.len() > 0);
        if i < exists.len() && exists[i] {
            proof {
                assert(ex.len() > 0);
                assert(ex[0] == exists@[i as int]);
                assert(rest[0] == cv[i as int]);
                assert(first_existing(rest, ex) == Some(rest[0]));
            }
            let ghost before = candidates@;
            let found = candidates.remove(i);
            proof {
                assert(found@ == crate::xlsx::string_views(before)[i as int]);
            }
            return Some(found);
        }
        proof {
            assert(rest.drop_first() =~= cv.skip(i as int + 1));
            if i < exists@.len() {
                assert(ex.len() > 0 && !ex[0]);
                assert(ex.drop_first() =~= exists@.skip(i as int + 1));
                assert(first_existing(rest, ex) == first_existing(rest.drop_first(), ex.drop_first()));
            } else {
                assert(ex.len() == 0);
                assert(first_existing(rest, ex) == first_existing(rest.drop_first(), ex));
                if i == exists@.len() {
                    assert(ex =~= Seq::<bool>::empty());
                }
            }
        }
        i += 1;
    }
    proof {
        assert(cv.skip(i as int).len() == 0);
    }
    None
}
} // verus!
