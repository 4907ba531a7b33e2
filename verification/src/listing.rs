use vstd::prelude::*;

use crate::ascii::{
    listing_close, listing_item_close, listing_item_mid, listing_item_open, listing_open,
    spec_listing_close, spec_listing_item_close, spec_listing_item_mid, spec_listing_item_open,
    spec_listing_open,
};
use crate::util::push_all;

verus! {

/// One immediate child of a directory, as the lookup reports it.
pub struct DirEntry {
    pub name: Vec<u8>,
    pub is_dir: bool,
}

/// The name and kind of each entry in a list.
pub open spec fn entries_view(v: Seq<DirEntry>) -> Seq<(Seq<u8>, bool)> {
    v.map_values(|e: DirEntry| (e.name@, e.is_dir))
}

/// The link text of one listed entry: its name, with a trailing slash for a
/// subdirectory.
pub open spec fn spec_entry_link(name: Seq<u8>, is_dir: bool) -> Seq<u8> {
    if is_dir {
        name.push(47)
    } else {
        name
    }
}

/// The list items rendered for `entries[i..]`.
pub open spec fn spec_listing_items(entries: Seq<(Seq<u8>, bool)>, i: int) -> Seq<u8>
    decreases entries.len() - i,
{
    if i < 0 || i >= entries.len() {
        seq![]
    } else {
        spec_listing_item_open() + spec_entry_link(entries[i].0, entries[i].1)
            + spec_listing_item_mid() + spec_entry_link(entries[i].0, entries[i].1)
            + spec_listing_item_close() + spec_listing_items(entries, i + 1)
    }
}

/// The whole rendered index of a directory: each entry as a linked list
/// item, in the order the lookup reported them.
pub open spec fn spec_listing(entries: Seq<(Seq<u8>, bool)>) -> Seq<u8> {
    spec_listing_open() + spec_listing_items(entries, 0) + spec_listing_close()
}

/// Appends the link text of one entry.
fn push_link(e: &DirEntry, out: &mut Vec<u8>)
    ensures
        final(out)@ == old(out)@ + spec_entry_link(e.name@, e.is_dir),
{
    push_all(&e.name, out);
    if e.is_dir {
        out.push(47);
    }
}

/// Renders the index page for a directory without an index file.
pub fn render_listing(entries: &Vec<DirEntry>) -> (r: Vec<u8>)
    ensures
        r@ == spec_listing(entries_view(entries@)),
{
    let ghost ev = entries_view(entries@);
    let mut out = listing_open();
    let mut i: usize = 0;
    while i < entries.len()
        invariant
            i <= entries.len(),
            ev == entries_view(entries@),
            out@ + spec_listing_items(ev, i as int) == spec_listing_open() + spec_listing_items(
                ev,
                0,
            ),
        decreases entries.len() - i,
    {
        let ghost before = out@;
        let io = listing_item_open();
        push_all(&io, &mut out);
        push_link(&entries[i], &mut out);
        let im = listing_item_mid();
        push_all(&im, &mut out);
        push_link(&entries[i], &mut out);
        let ic = listing_item_close();
        push_all(&ic, &mut out);
        proof {
            assert(ev[i as int] == (entries@[i as int].name@, entries@[i as int].is_dir));
            assert(out@ =~= before + (spec_listing_item_open() + spec_entry_link(
                ev[i as int].0,
                ev[i as int].1,
            ) + spec_listing_item_mid() + spec_entry_link(ev[i as int].0, ev[i as int].1)
                + spec_listing_item_close()));
            assert(before + (spec_listing_item_open() + spec_entry_link(ev[i as int].0, ev[i as int].1)
                + spec_listing_item_mid() + spec_entry_link(ev[i as int].0, ev[i as int].1)
                + spec_listing_item_close()) + spec_listing_items(ev, i + 1) =~= before
                + spec_listing_items(ev, i as int));
        }
        i += 1;
    }
    let lc = listing_close();
    push_all(&lc, &mut out);
    proof {
        assert(spec_listing_items(ev, entries@.len() as int) =~= Seq::<u8>::empty());
        assert((spec_listing_open() + spec_listing_items(ev, 0)) + Seq::<u8>::empty()
            =~= spec_listing_open() + spec_listing_items(ev, 0));
        assert(out@ =~= spec_listing(ev));
    }
    out
}

} // verus!
