//! What the file operations of the prover do to a disk, also when they are cut
//! short.

use vstd::prelude::*;

use crate::persistence;
use crate::persistence::{FileOpView, Layout, RecordView};

verus! {

/// What a file holds.
pub enum Content {
    /// A whole bootstrap record.
    Record(RecordView),
    /// Part of a bootstrap record.
    Torn,
    /// Plain bytes.
    Bytes(Seq<u8>),
}

/// A file.
pub struct FileView {
    /// What it holds.
    pub content: Content,
    /// Its permission bits.
    pub mode: u32,
}

/// The permission bits of the file at `path` once it is open for writing, where it is
/// given none: those it has, or `umask_mode` if it is created.
pub open spec fn kept_mode(
    disk: Map<Seq<u8>, FileView>,
    path: Seq<u8>,
    umask_mode: u32,
) -> u32 {
    if disk.dom().contains(path) {
        disk[path].mode
    } else {
        umask_mode
    }
}

/// The files after an operation. `umask_mode` is the mode of a file that is created
/// without one.
pub open spec fn performed(
    disk: Map<Seq<u8>, FileView>,
    op: FileOpView,
    umask_mode: u32,
) -> Map<Seq<u8>, FileView> {
    match op {
        FileOpView::CreateDirs { .. } => disk,
        FileOpView::WriteRecord { path, record } => disk.insert(
            path,
            FileView {
                content: Content::Record(record),
                mode: kept_mode(disk, path, umask_mode),
            },
        ),
        FileOpView::WriteSecret { path, mode, bytes } => disk.insert(
            path,
            FileView { content: Content::Bytes(bytes), mode },
        ),
        FileOpView::Rename { from, to } => if disk.dom().contains(from) {
            disk.remove(from).insert(to, disk[from])
        } else {
            disk
        },
    }
}

/// Whether an operation that is cut short may leave the files as `left`: a file that
/// is being written may hold any part of what was to be written, one that is to hold
/// a secret has its mode before it changes otherwise, and a rename happens or does
/// not. The mask of the process is taken to leave the bits of the owner alone.
pub open spec fn may_leave(
    disk: Map<Seq<u8>, FileView>,
    op: FileOpView,
    umask_mode: u32,
    left: Map<Seq<u8>, FileView>,
) -> bool {
    ||| left == disk
    ||| left == performed(disk, op, umask_mode)
    ||| match op {
        FileOpView::WriteRecord { path, .. } => left == disk.insert(
            path,
            FileView { content: Content::Torn, mode: kept_mode(disk, path, umask_mode) },
        ),
        FileOpView::WriteSecret { path, mode, bytes } => {
            ||| disk.dom().contains(path) && left == disk.insert(
                path,
                FileView { content: disk[path].content, mode },
            )
            ||| exists|written: int|
                0 <= written <= bytes.len() && left == #[trigger] disk.insert(
                    path,
                    FileView { content: Content::Bytes(bytes.take(written)), mode },
                )
        },
        _ => false,
    }
}

/// The files after operations performed in order.
pub open spec fn performed_all(
    disk: Map<Seq<u8>, FileView>,
    ops: Seq<FileOpView>,
    umask_mode: u32,
) -> Map<Seq<u8>, FileView>
    decreases ops.len(),
{
    if ops.len() == 0 {
        disk
    } else {
        performed_all(performed(disk, ops[0], umask_mode), ops.drop_first(), umask_mode)
    }
}

/// Whether operations performed in order and cut short somewhere may leave the files
/// as `left`.
pub open spec fn may_leave_all(
    disk: Map<Seq<u8>, FileView>,
    ops: Seq<FileOpView>,
    umask_mode: u32,
    left: Map<Seq<u8>, FileView>,
) -> bool
    decreases ops.len(),
{
    if ops.len() == 0 {
        left == disk
    } else {
        ||| may_leave(disk, ops[0], umask_mode, left)
        ||| may_leave_all(
            performed(disk, ops[0], umask_mode),
            ops.drop_first(),
            umask_mode,
            left,
        )
    }
}

/// Whether an operation that fails may leave the files as `left`: a rename that fails
/// changes nothing, and any other operation may have come to any point.
pub open spec fn may_fail_with(
    disk: Map<Seq<u8>, FileView>,
    op: FileOpView,
    umask_mode: u32,
    left: Map<Seq<u8>, FileView>,
) -> bool {
    match op {
        FileOpView::Rename { .. } => left == disk,
        _ => may_leave(disk, op, umask_mode, left),
    }
}

/// Whether operations performed in order up to one that fails may leave the files as
/// `left`.
pub open spec fn may_fail_with_all(
    disk: Map<Seq<u8>, FileView>,
    ops: Seq<FileOpView>,
    umask_mode: u32,
    left: Map<Seq<u8>, FileView>,
) -> bool
    decreases ops.len(),
{
    if ops.len() == 0 {
        false
    } else {
        ||| may_fail_with(disk, ops[0], umask_mode, left)
        ||| may_fail_with_all(
            performed(disk, ops[0], umask_mode),
            ops.drop_first(),
            umask_mode,
            left,
        )
    }
}

/// Whether the file at `path`, or its not being there, is the same on two disks.
pub open spec fn same_at(
    disk: Map<Seq<u8>, FileView>,
    other: Map<Seq<u8>, FileView>,
    path: Seq<u8>,
) -> bool {
    &&& disk.dom().contains(path) == other.dom().contains(path)
    &&& disk.dom().contains(path) ==> disk[path] == other[path]
}

pub(crate) proof fn lemma_places_differ(layout: Layout)
    requires
        layout.well_formed(),
    ensures
        layout.record@ != layout.record_tmp@,
        layout.record@ != layout.private_key@,
        layout.record_tmp@ != layout.private_key@,
{
    reveal_strlit("bootstrap.json");
    reveal_strlit("bootstrap.json.tmp");
    reveal_strlit("secrets");
    reveal_strlit("priv.key");
    vstd::utf8::is_ascii_chars_encode_utf8("bootstrap.json"@);
    vstd::utf8::is_ascii_chars_encode_utf8("bootstrap.json.tmp"@);
    vstd::utf8::is_ascii_chars_encode_utf8("secrets"@);
    vstd::utf8::is_ascii_chars_encode_utf8("priv.key"@);
    assert(layout.secrets@.last() == "secrets"@[6] as u8);
    assert(layout.record_tmp@.len() == layout.record@.len() + 4);
    assert(layout.private_key@.len() == layout.record@.len() + 2);
}

/// Storing a record, however it is cut short, leaves the place of the record with
/// what it held, or with the whole new record: never with part of one. No file
/// changes but that and the one that the record is written to first.
pub proof fn record_is_never_torn(
    layout: Layout,
    record: RecordView,
    disk: Map<Seq<u8>, FileView>,
    umask_mode: u32,
    left: Map<Seq<u8>, FileView>,
)
    requires
        layout.well_formed(),
        may_leave_all(disk, persistence::record_plan(layout, record), umask_mode, left),
    ensures
        ({
            ||| left.dom().contains(layout.record@) && left[layout.record@].content
                == Content::Record(record)
            ||| same_at(left, disk, layout.record@)
        }),
        forall|path: Seq<u8>|
            path != layout.record@ && path != layout.record_tmp@ ==> #[trigger] same_at(
                left,
                disk,
                path,
            ),
{
    lemma_places_differ(layout);
    let ops = persistence::record_plan(layout, record);
    let rest = ops.drop_first();
    let last = rest.drop_first();
    assert(rest[0] == ops[1]);
    assert(last[0] == ops[2]);
    reveal_with_fuel(may_leave_all, 4);
}

/// Storing a record, where it fails, leaves the place of the record as it was, and all
/// files but the one that the record is written to first.
pub proof fn failed_storing_keeps_the_record(
    layout: Layout,
    record: RecordView,
    disk: Map<Seq<u8>, FileView>,
    umask_mode: u32,
    left: Map<Seq<u8>, FileView>,
)
    requires
        layout.well_formed(),
        may_fail_with_all(disk, persistence::record_plan(layout, record), umask_mode, left),
    ensures
        same_at(left, disk, layout.record@),
        forall|path: Seq<u8>|
            path != layout.record_tmp@ ==> #[trigger] same_at(left, disk, path),
{
    lemma_places_differ(layout);
    let ops = persistence::record_plan(layout, record);
    let rest = ops.drop_first();
    let last = rest.drop_first();
    assert(rest[0] == ops[1]);
    assert(last[0] == ops[2]);
    reveal_with_fuel(may_fail_with_all, 4);
}

/// Storing a record leaves it at its place, nothing beside it, and the other files
/// as they were.
pub proof fn record_is_stored(
    layout: Layout,
    record: RecordView,
    disk: Map<Seq<u8>, FileView>,
    umask_mode: u32,
)
    requires
        layout.well_formed(),
    ensures
        ({
            let after = performed_all(disk, persistence::record_plan(layout, record), umask_mode);
            &&& after.dom().contains(layout.record@)
            &&& after[layout.record@].content == Content::Record(record)
            &&& !after.dom().contains(layout.record_tmp@)
            &&& forall|path: Seq<u8>|
                path != layout.record@ && path != layout.record_tmp@ ==> #[trigger] same_at(
                    after,
                    disk,
                    path,
                )
        }),
{
    lemma_places_differ(layout);
    let ops = persistence::record_plan(layout, record);
    let rest = ops.drop_first();
    let last = rest.drop_first();
    assert(rest[0] == ops[1]);
    assert(last[0] == ops[2]);
    reveal_with_fuel(performed_all, 4);
}

/// Storing a key leaves its bytes at its place, with mode 0600 whatever was there, and
/// the other files as they were.
pub proof fn key_is_stored(
    layout: Layout,
    secret: Seq<u8>,
    disk: Map<Seq<u8>, FileView>,
    umask_mode: u32,
)
    ensures
        ({
            let after = performed_all(disk, persistence::key_plan(layout, secret), umask_mode);
            &&& after.dom().contains(layout.private_key@)
            &&& after[layout.private_key@].content == Content::Bytes(secret)
            &&& after[layout.private_key@].mode == 0o600
            &&& forall|path: Seq<u8>|
                path != layout.private_key@ ==> #[trigger] same_at(after, disk, path)
        }),
{
    let ops = persistence::key_plan(layout, secret);
    let rest = ops.drop_first();
    let last = rest.drop_first();
    assert(rest[0] == ops[1]);
    assert(last[0] == ops[2]);
    reveal_with_fuel(performed_all, 4);
}

/// Storing a key, however it is cut short, leaves the place of the key as it was, or
/// with mode 0600 and what it held or part of the new key: none of the key is ever in
/// a file with another mode. No other file changes.
pub proof fn key_is_never_exposed(
    layout: Layout,
    secret: Seq<u8>,
    disk: Map<Seq<u8>, FileView>,
    umask_mode: u32,
    left: Map<Seq<u8>, FileView>,
)
    requires
        may_leave_all(disk, persistence::key_plan(layout, secret), umask_mode, left),
    ensures
        ({
            ||| same_at(left, disk, layout.private_key@)
            ||| {
                &&& left.dom().contains(layout.private_key@)
                &&& left[layout.private_key@].mode == 0o600
                &&& {
                    ||| disk.dom().contains(layout.private_key@)
                        && left[layout.private_key@].content
                        == disk[layout.private_key@].content
                    ||| exists|written: int|
                        0 <= written <= secret.len() && left[layout.private_key@].content
                            == Content::Bytes(#[trigger] secret.take(written))
                }
            }
        }),
        forall|path: Seq<u8>|
            path != layout.private_key@ ==> #[trigger] same_at(left, disk, path),
{
    let ops = persistence::key_plan(layout, secret);
    let rest = ops.drop_first();
    let last = rest.drop_first();
    assert(rest[0] == ops[1]);
    assert(last[0] == ops[2]);
    reveal_with_fuel(may_leave_all, 4);
    assert(secret.take(secret.len() as int) =~= secret);
}

} // verus!
