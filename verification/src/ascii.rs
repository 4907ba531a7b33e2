use vstd::prelude::*;

verus! {

/// The bytes of `Cache-Control`.
pub open spec fn spec_hdr_cache_control() -> Seq<u8> {
    seq![67u8, 97, 99, 104, 101, 45, 67, 111, 110, 116, 114, 111, 108]
}

pub fn hdr_cache_control() -> (r: Vec<u8>)
    ensures
        r@ == spec_hdr_cache_control(),
{
    let mut v: Vec<u8> = Vec::with_capacity(13);
    v.push(67);
    v.push(97);
    v.push(99);
    v.push(104);
    v.push(101);
    v.push(45);
    v.push(67);
    v.push(111);
    v.push(110);
    v.push(116);
    v.push(114);
    v.push(111);
    v.push(108);
    proof { assert(v@ =~= spec_hdr_cache_control()); }
    v
}

/// The bytes of `Content-Type`.
pub open spec fn spec_hdr_content_type() -> Seq<u8> {
    seq![67u8, 111, 110, 116, 101, 110, 116, 45, 84, 121, 112, 101]
}

pub fn hdr_content_type() -> (r: Vec<u8>)
    ensures
        r@ == spec_hdr_content_type(),
{
    let mut v: Vec<u8> = Vec::with_capacity(12);
    v.push(67);
    v.push(111);
    v.push(110);
    v.push(116);
    v.push(101);
    v.push(110);
    v.push(116);
    v.push(45);
    v.push(84);
    v.push(121);
    v.push(112);
    v.push(101);
    proof { assert(v@ =~= spec_hdr_content_type()); }
    v
}

/// The bytes of `Content-Encoding`.
pub open spec fn spec_hdr_content_encoding() -> Seq<u8> {
    seq![67u8, 111, 110, 116, 101, 110, 116, 45, 69, 110, 99, 111, 100, 105, 110, 103]
}

pub fn hdr_content_encoding() -> (r: Vec<u8>)
    ensures
        r@ == spec_hdr_content_encoding(),
{
    let mut v: Vec<u8> = Vec::with_capacity(16);
    v.push(67);
    v.push(111);
    v.push(110);
    v.push(116);
    v.push(101);
    v.push(110);
    v.push(116);
    v.push(45);
    v.push(69);
    v.push(110);
    v.push(99);
    v.push(111);
    v.push(100);
    v.push(105);
    v.push(110);
    v.push(103);
    proof { assert(v@ =~= spec_hdr_content_encoding()); }
    v
}

/// The bytes of `Content-Length`.
pub open spec fn spec_hdr_content_length() -> Seq<u8> {
    seq![67u8, 111, 110, 116, 101, 110, 116, 45, 76, 101, 110, 103, 116, 104]
}

pub fn hdr_content_length() -> (r: Vec<u8>)
    ensures
        r@ == spec_hdr_content_length(),
{
    let mut v: Vec<u8> = Vec::with_capacity(14);
    v.push(67);
    v.push(111);
    v.push(110);
    v.push(116);
    v.push(101);
    v.push(110);
    v.push(116);
    v.push(45);
    v.push(76);
    v.push(101);
    v.push(110);
    v.push(103);
    v.push(116);
    v.push(104);
    proof { assert(v@ =~= spec_hdr_content_length()); }
    v
}

/// The bytes of `Access-Control-Allow-Origin`.
pub open spec fn spec_hdr_allow_origin() -> Seq<u8> {
    seq![65u8, 99, 99, 101, 115, 115, 45, 67, 111, 110, 116, 114, 111, 108, 45, 65, 108, 108, 111, 119, 45, 79, 114, 105, 103, 105, 110]
}

pub fn hdr_allow_origin() -> (r: Vec<u8>)
    ensures
        r@ == spec_hdr_allow_origin(),
{
    let mut v: Vec<u8> = Vec::with_capacity(27);
    v.push(65);
    v.push(99);
    v.push(99);
    v.push(101);
    v.push(115);
    v.push(115);
    v.push(45);
    v.push(67);
    v.push(111);
    v.push(110);
    v.push(116);
    v.push(114);
    v.push(111);
    v.push(108);
    v.push(45);
    v.push(65);
    v.push(108);
    v.push(108);
    v.push(111);
    v.push(119);
    v.push(45);
    v.push(79);
    v.push(114);
    v.push(105);
    v.push(103);
    v.push(105);
    v.push(110);
    proof { assert(v@ =~= spec_hdr_allow_origin()); }
    v
}

/// The bytes of `gzip`.
pub open spec fn spec_val_gzip() -> Seq<u8> {
    seq![103u8, 122, 105, 112]
}

pub fn val_gzip() -> (r: Vec<u8>)
    ensures
        r@ == spec_val_gzip(),
{
    let mut v: Vec<u8> = Vec::with_capacity(4);
    v.push(103);
    v.push(122);
    v.push(105);
    v.push(112);
    proof { assert(v@ =~= spec_val_gzip()); }
    v
}

/// The bytes of `max-age=`.
pub open spec fn spec_val_max_age_prefix() -> Seq<u8> {
    seq![109u8, 97, 120, 45, 97, 103, 101, 61]
}

pub fn val_max_age_prefix() -> (r: Vec<u8>)
    ensures
        r@ == spec_val_max_age_prefix(),
{
    let mut v: Vec<u8> = Vec::with_capacity(8);
    v.push(109);
    v.push(97);
    v.push(120);
    v.push(45);
    v.push(97);
    v.push(103);
    v.push(101);
    v.push(61);
    proof { assert(v@ =~= spec_val_max_age_prefix()); }
    v
}

/// The bytes of `text/html`.
pub open spec fn spec_text_html() -> Seq<u8> {
    seq![116u8, 101, 120, 116, 47, 104, 116, 109, 108]
}

pub fn text_html() -> (r: Vec<u8>)
    ensures
        r@ == spec_text_html(),
{
    let mut v: Vec<u8> = Vec::with_capacity(9);
    v.push(116);
    v.push(101);
    v.push(120);
    v.push(116);
    v.push(47);
    v.push(104);
    v.push(116);
    v.push(109);
    v.push(108);
    proof { assert(v@ =~= spec_text_html()); }
    v
}

/// The bytes of `text/`.
pub open spec fn spec_text_prefix() -> Seq<u8> {
    seq![116u8, 101, 120, 116, 47]
}

pub fn text_prefix() -> (r: Vec<u8>)
    ensures
        r@ == spec_text_prefix(),
{
    let mut v: Vec<u8> = Vec::with_capacity(5);
    v.push(116);
    v.push(101);
    v.push(120);
    v.push(116);
    v.push(47);
    proof { assert(v@ =~= spec_text_prefix()); }
    v
}

/// The bytes of `index.html`.
pub open spec fn spec_index_html() -> Seq<u8> {
    seq![105u8, 110, 100, 101, 120, 46, 104, 116, 109, 108]
}

pub fn index_html() -> (r: Vec<u8>)
    ensures
        r@ == spec_index_html(),
{
    let mut v: Vec<u8> = Vec::with_capacity(10);
    v.push(105);
    v.push(110);
    v.push(100);
    v.push(101);
    v.push(120);
    v.push(46);
    v.push(104);
    v.push(116);
    v.push(109);
    v.push(108);
    proof { assert(v@ =~= spec_index_html()); }
    v
}

/// The bytes of `Not Found`.
pub open spec fn spec_fallback_not_found() -> Seq<u8> {
    seq![78u8, 111, 116, 32, 70, 111, 117, 110, 100]
}

pub fn fallback_not_found() -> (r: Vec<u8>)
    ensures
        r@ == spec_fallback_not_found(),
{
    let mut v: Vec<u8> = Vec::with_capacity(9);
    v.push(78);
    v.push(111);
    v.push(116);
    v.push(32);
    v.push(70);
    v.push(111);
    v.push(117);
    v.push(110);
    v.push(100);
    proof { assert(v@ =~= spec_fallback_not_found()); }
    v
}

/// The bytes of `Server Error`.
pub open spec fn spec_fallback_server_error() -> Seq<u8> {
    seq![83u8, 101, 114, 118, 101, 114, 32, 69, 114, 114, 111, 114]
}

pub fn fallback_server_error() -> (r: Vec<u8>)
    ensures
        r@ == spec_fallback_server_error(),
{
    let mut v: Vec<u8> = Vec::with_capacity(12);
    v.push(83);
    v.push(101);
    v.push(114);
    v.push(118);
    v.push(101);
    v.push(114);
    v.push(32);
    v.push(69);
    v.push(114);
    v.push(114);
    v.push(111);
    v.push(114);
    proof { assert(v@ =~= spec_fallback_server_error()); }
    v
}

/// The bytes of `<html><body><ul>`.
pub open spec fn spec_listing_open() -> Seq<u8> {
    seq![60u8, 104, 116, 109, 108, 62, 60, 98, 111, 100, 121, 62, 60, 117, 108, 62]
}

pub fn listing_open() -> (r: Vec<u8>)
    ensures
        r@ == spec_listing_open(),
{
    let mut v: Vec<u8> = Vec::with_capacity(16);
    v.push(60);
    v.push(104);
    v.push(116);
    v.push(109);
    v.push(108);
    v.push(62);
    v.push(60);
    v.push(98);
    v.push(111);
    v.push(100);
    v.push(121);
    v.push(62);
    v.push(60);
    v.push(117);
    v.push(108);
    v.push(62);
    proof { assert(v@ =~= spec_listing_open()); }
    v
}

/// The bytes of `</ul></body></html>`.
pub open spec fn spec_listing_close() -> Seq<u8> {
    seq![60u8, 47, 117, 108, 62, 60, 47, 98, 111, 100, 121, 62, 60, 47, 104, 116, 109, 108, 62]
}

pub fn listing_close() -> (r: Vec<u8>)
    ensures
        r@ == spec_listing_close(),
{
    let mut v: Vec<u8> = Vec::with_capacity(19);
    v.push(60);
    v.push(47);
    v.push(117);
    v.push(108);
    v.push(62);
    v.push(60);
    v.push(47);
    v.push(98);
    v.push(111);
    v.push(100);
    v.push(121);
    v.push(62);
    v.push(60);
    v.push(47);
    v.push(104);
    v.push(116);
    v.push(109);
    v.push(108);
    v.push(62);
    proof { assert(v@ =~= spec_listing_close()); }
    v
}

/// The bytes of `<li><a href="`.
pub open spec fn spec_listing_item_open() -> Seq<u8> {
    seq![60u8, 108, 105, 62, 60, 97, 32, 104, 114, 101, 102, 61, 34]
}

pub fn listing_item_open() -> (r: Vec<u8>)
    ensures
        r@ == spec_listing_item_open(),
{
    let mut v: Vec<u8> = Vec::with_capacity(13);
    v.push(60);
    v.push(108);
    v.push(105);
    v.push(62);
    v.push(60);
    v.push(97);
    v.push(32);
    v.push(104);
    v.push(114);
    v.push(101);
    v.push(102);
    v.push(61);
    v.push(34);
    proof { assert(v@ =~= spec_listing_item_open()); }
    v
}

/// The bytes of `">`.
pub open spec fn spec_listing_item_mid() -> Seq<u8> {
    seq![34u8, 62]
}

pub fn listing_item_mid() -> (r: Vec<u8>)
    ensures
        r@ == spec_listing_item_mid(),
{
    let mut v: Vec<u8> = Vec::with_capacity(2);
    v.push(34);
    v.push(62);
    proof { assert(v@ =~= spec_listing_item_mid()); }
    v
}

/// The bytes of `</a></li>`.
pub open spec fn spec_listing_item_close() -> Seq<u8> {
    seq![60u8, 47, 97, 62, 60, 47, 108, 105, 62]
}

pub fn listing_item_close() -> (r: Vec<u8>)
    ensures
        r@ == spec_listing_item_close(),
{
    let mut v: Vec<u8> = Vec::with_capacity(9);
    v.push(60);
    v.push(47);
    v.push(97);
    v.push(62);
    v.push(60);
    v.push(47);
    v.push(108);
    v.push(105);
    v.push(62);
    proof { assert(v@ =~= spec_listing_item_close()); }
    v
}

/// The bytes of the Windows verbatim path prefix, a pair of backslashes,
/// a question mark and one more backslash.
pub open spec fn spec_verbatim_prefix() -> Seq<u8> {
    seq![92u8, 92, 63, 92]
}

pub fn verbatim_prefix() -> (r: Vec<u8>)
    ensures
        r@ == spec_verbatim_prefix(),
{
    let mut v: Vec<u8> = Vec::with_capacity(4);
    v.push(92);
    v.push(92);
    v.push(63);
    v.push(92);
    proof { assert(v@ =~= spec_verbatim_prefix()); }
    v
}

} // verus!
