//! Directory entries: decoding the engine's raw listing records into
//! typed entries and filtering the listing.
//!
//! The enumerator's state machine (open, read until the null sentinel,
//! close exactly once) is driven by the unverified shell, which gathers
//! the raw records of one listing and hands them here as plain values.
//! Everything decided about a record — whether it decodes, whether it is
//! shown — is verified: a record that fails to decode is skipped, never
//! fatal, and the self links `.` and `..` and any empty-name record are
//! filtered out after a successful decode, so the two skip paths are
//! independent.

use vstd::prelude::*;
use vstd::slice::slice_to_vec;
use vstd::string::StrSliceExecFns;
use vstd::utf8::{decode_utf8, valid_utf8};

use crate::codec::decode_name;
use crate::error::{SmbError, SmbResult};
use crate::stat::SmbTime;

verus! {

/// Typed directory-entry kind, decoded from the engine's numeric
/// discriminator.
#[derive(Clone, Copy, Debug, PartialEq, Eq, Structural)]
pub enum SmbDirentType {
    /// A workgroup.
    Workgroup,
    /// A server.
    Server,
    /// A file share.
    FileShare,
    /// A printer share.
    PrinterShare,
    /// A communications share.
    CommsShare,
    /// An IPC share.
    IpcShare,
    /// A directory.
    Dir,
    /// A regular file.
    File,
    /// A symbolic link.
    SymLink,
}

/// The entry kind denoted by the engine's numeric discriminator, absent
/// for any code outside the documented range.
pub open spec fn spec_type_of(code: u32) -> Option<SmbDirentType> {
    if code == 1 {
        Some(SmbDirentType::Workgroup)
    } else if code == 2 {
        Some(SmbDirentType::Server)
    } else if code == 3 {
        Some(SmbDirentType::FileShare)
    } else if code == 4 {
        Some(SmbDirentType::PrinterShare)
    } else if code == 5 {
        Some(SmbDirentType::CommsShare)
    } else if code == 6 {
        Some(SmbDirentType::IpcShare)
    } else if code == 7 {
        Some(SmbDirentType::Dir)
    } else if code == 8 {
        Some(SmbDirentType::File)
    } else if code == 9 {
        Some(SmbDirentType::SymLink)
    } else {
        None
    }
}

impl SmbDirentType {
    /// Decode the engine's numeric discriminator.
    pub fn from_code(code: u32) -> (r: Option<SmbDirentType>)
        ensures
            r == spec_type_of(code),
    {
        match code {
            1 => Some(SmbDirentType::Workgroup),
            2 => Some(SmbDirentType::Server),
            3 => Some(SmbDirentType::FileShare),
            4 => Some(SmbDirentType::PrinterShare),
            5 => Some(SmbDirentType::CommsShare),
            6 => Some(SmbDirentType::IpcShare),
            7 => Some(SmbDirentType::Dir),
            8 => Some(SmbDirentType::File),
            9 => Some(SmbDirentType::SymLink),
            _ => None,
        }
    }
}

/// One raw listing record as the engine reports it: the numeric kind
/// discriminator and the entry name's bytes (without the terminating
/// NUL).
pub struct RawDirent {
    /// Numeric entry-kind discriminator.
    pub type_code: u32,
    /// Entry-name bytes.
    pub name: Vec<u8>,
}

/// Mathematical content of a decoded entry.
pub ghost struct DirentView {
    /// The decoded entry name.
    pub name: Seq<char>,
    /// The entry kind.
    pub d_type: SmbDirentType,
}

/// One decoded, typed directory entry.
pub struct SmbDirent {
    name: String,
    d_type: SmbDirentType,
}

impl View for SmbDirent {
    type V = DirentView;

    closed spec fn view(&self) -> DirentView {
        DirentView { name: self.name@, d_type: self.d_type }
    }
}

impl DeepView for SmbDirent {
    type V = DirentView;

    open spec fn deep_view(&self) -> DirentView {
        self.view()
    }
}

impl SmbDirent {
    /// The entry's name.
    pub fn name(&self) -> (r: &str)
        ensures
            r@ == self@.name,
    {
        self.name.as_str()
    }

    /// The entry's kind.
    pub fn get_type(&self) -> (r: SmbDirentType)
        ensures
            r == self@.d_type,
    {
        self.d_type
    }
}

/// A raw record decodes when its kind discriminator is documented and its
/// name bytes are valid UTF-8.
pub open spec fn spec_decodable(r: RawDirent) -> bool {
    spec_type_of(r.type_code) is Some && valid_utf8(r.name@)
}

/// The entry a decodable raw record denotes.
pub open spec fn spec_entry_of(r: RawDirent) -> DirentView {
    DirentView { name: decode_utf8(r.name@), d_type: spec_type_of(r.type_code)->0 }
}

/// A name shown in a listing: not the self link `.`, not the parent link
/// `..`, not empty.
pub open spec fn spec_visible(name: Seq<char>) -> bool {
    name.len() > 0 && name != seq!['.'] && name != seq!['.', '.']
}

/// Decode one raw record into a typed entry; `None` when the kind
/// discriminator is undocumented or the name bytes are not valid text.
pub fn decode_dirent(raw: &RawDirent) -> (r: Option<SmbDirent>)
    ensures
        r is Some <==> spec_decodable(*raw),
        r matches Some(e) ==> e@ == spec_entry_of(*raw),
{
    match SmbDirentType::from_code(raw.type_code) {
        Some(d_type) => {
            match decode_name(slice_to_vec(raw.name.as_slice())) {
                Ok(name) => Some(SmbDirent { name, d_type }),
                Err(_) => None,
            }
        },
        None => None,
    }
}

/// Whether a decoded name is shown in a listing.
pub fn is_visible_name(name: &str) -> (r: bool)
    ensures
        r == spec_visible(name@),
{
    let len = name.unicode_len();
    if len == 0 {
        proof {
            assert(!spec_visible(name@));
        }
        return false;
    }
    if len == 1 && name.get_char(0) == '.' {
        proof {
            assert(name@ =~= seq!['.']);
        }
        return false;
    }
    if len == 2 && name.get_char(0) == '.' && name.get_char(1) == '.' {
        proof {
            assert(name@ =~= seq!['.', '.']);
        }
        return false;
    }
    proof {
        if name@ == seq!['.'] {
            assert(name@.len() == 1 && name@[0] == '.');
        }
        if name@ == seq!['.', '.'] {
            assert(name@.len() == 2 && name@[0] == '.' && name@[1] == '.');
        }
    }
    true
}

/// The visible entries of a raw record sequence, in reading order: each
/// record that decodes and whose name is shown, decode failures and
/// hidden names skipped.
pub open spec fn spec_collect(records: Seq<RawDirent>) -> Seq<DirentView>
    decreases records.len(),
{
    if records.len() == 0 {
        Seq::empty()
    } else {
        let rest = spec_collect(records.drop_first());
        if spec_decodable(records[0]) && spec_visible(spec_entry_of(records[0]).name) {
            seq![spec_entry_of(records[0])] + rest
        } else {
            rest
        }
    }
}

/// Decode and filter one listing's raw records.
pub fn collect_entries(records: &Vec<RawDirent>) -> (r: Vec<SmbDirent>)
    ensures
        r.deep_view() == spec_collect(records@),
{
    let mut out: Vec<SmbDirent> = Vec::new();
    let mut i: usize = 0;
    proof {
        assert(out.deep_view() =~= Seq::<DirentView>::empty());
        assert(records@.skip(0) =~= records@);
        assert(out.deep_view() + spec_collect(records@) =~= spec_collect(records@));
    }
    while i < records.len()
        invariant
            i <= records@.len(),
            out.deep_view() + spec_collect(records@.skip(i as int)) == spec_collect(
                records@,
            ),
        decreases records@.len() - i,
    {
        let ghost pending = records@.skip(i as int);
        proof {
            assert(pending.drop_first() =~= records@.skip(i as int + 1));
            assert(pending[0] == records@[i as int]);
        }
        match decode_dirent(&records[i]) {
            Some(entry) => {
                if is_visible_name(entry.name()) {
                    let ghost old_out = out.deep_view();
                    out.push(entry);
                    proof {
                        assert(out.deep_view() =~= old_out.push(entry@));
                        assert(out.deep_view() + spec_collect(pending.drop_first())
                            =~= old_out + spec_collect(pending));
                    }
                }
            },
            None => {},
        }
        i += 1;
    }
    proof {
        assert(records@.skip(records@.len() as int)
            =~= Seq::<RawDirent>::empty());
        assert(out.deep_view() =~= out.deep_view() + spec_collect(
            records@.skip(records@.len() as int),
        ));
    }
    out
}

/// One raw listing record of the metadata-carrying variant: the entry
/// name's bytes plus the embedded metadata the engine reports with it.
pub struct RawDirentInfo {
    /// Entry-name bytes.
    pub name: Vec<u8>,
    /// DOS attribute bitmask; bit 0x10 marks a directory.
    pub attrs: u16,
    /// File size in bytes.
    pub size: u64,
    /// Owning user.
    pub uid: u32,
    /// Owning group.
    pub gid: u32,
    /// Creation time, zero when the server does not report it.
    pub created: SmbTime,
    /// Last content-modification time.
    pub modified: SmbTime,
    /// Last access time.
    pub accessed: SmbTime,
    /// Last metadata-change time.
    pub changed: SmbTime,
}

/// Mathematical content of a decoded metadata-carrying entry.
pub ghost struct DirentInfoView {
    /// The decoded entry name.
    pub name: Seq<char>,
    /// DOS attribute bitmask.
    pub attrs: u16,
    /// File size in bytes.
    pub size: u64,
    /// Owning user.
    pub uid: u32,
    /// Owning group.
    pub gid: u32,
    /// Creation time.
    pub created: SmbTime,
    /// Last content-modification time.
    pub modified: SmbTime,
    /// Last access time.
    pub accessed: SmbTime,
    /// Last metadata-change time.
    pub changed: SmbTime,
}

/// The entry kind the attribute bitmask denotes: a directory when the
/// directory bit (0x10) is set, a regular file otherwise.
pub open spec fn spec_type_of_attrs(attrs: u16) -> SmbDirentType {
    if attrs & 0x10 != 0 {
        SmbDirentType::Dir
    } else {
        SmbDirentType::File
    }
}

/// One decoded directory entry with its embedded metadata.
pub struct SmbDirentInfo {
    name: String,
    attrs: u16,
    size: u64,
    uid: u32,
    gid: u32,
    created: SmbTime,
    modified: SmbTime,
    accessed: SmbTime,
    changed: SmbTime,
}

impl View for SmbDirentInfo {
    type V = DirentInfoView;

    closed spec fn view(&self) -> DirentInfoView {
        DirentInfoView {
            name: self.name@,
            attrs: self.attrs,
            size: self.size,
            uid: self.uid,
            gid: self.gid,
            created: self.created,
            modified: self.modified,
            accessed: self.accessed,
            changed: self.changed,
        }
    }
}

impl DeepView for SmbDirentInfo {
    type V = DirentInfoView;

    open spec fn deep_view(&self) -> DirentInfoView {
        self.view()
    }
}

impl SmbDirentInfo {
    /// The entry's name.
    pub fn name(&self) -> (r: &str)
        ensures
            r@ == self@.name,
    {
        self.name.as_str()
    }

    /// The entry's kind, read off the attribute bitmask.
    pub fn get_type(&self) -> (r: SmbDirentType)
        ensures
            r == spec_type_of_attrs(self@.attrs),
    {
        if self.attrs & 0x10 != 0 {
            SmbDirentType::Dir
        } else {
            SmbDirentType::File
        }
    }

    /// File size in bytes.
    pub fn size(&self) -> (r: u64)
        ensures
            r == self@.size,
    {
        self.size
    }

    /// Owning user.
    pub fn uid(&self) -> (r: u32)
        ensures
            r == self@.uid,
    {
        self.uid
    }

    /// Owning group.
    pub fn gid(&self) -> (r: u32)
        ensures
            r == self@.gid,
    {
        self.gid
    }

    /// Creation time.
    pub fn created(&self) -> (r: SmbTime)
        ensures
            r == self@.created,
    {
        self.created
    }

    /// Last content-modification time.
    pub fn modified(&self) -> (r: SmbTime)
        ensures
            r == self@.modified,
    {
        self.modified
    }

    /// Last access time.
    pub fn accessed(&self) -> (r: SmbTime)
        ensures
            r == self@.accessed,
    {
        self.accessed
    }

    /// Last metadata-change time.
    pub fn changed(&self) -> (r: SmbTime)
        ensures
            r == self@.changed,
    {
        self.changed
    }
}

/// A metadata-carrying raw record decodes when its name bytes are valid
/// UTF-8; the metadata itself is plain numbers and needs no decoding.
pub open spec fn spec_decodable_info(r: RawDirentInfo) -> bool {
    valid_utf8(r.name@)
}

/// The entry a decodable metadata-carrying raw record denotes.
pub open spec fn spec_entry_info_of(r: RawDirentInfo) -> DirentInfoView {
    DirentInfoView {
        name: decode_utf8(r.name@),
        attrs: r.attrs,
        size: r.size,
        uid: r.uid,
        gid: r.gid,
        created: r.created,
        modified: r.modified,
        accessed: r.accessed,
        changed: r.changed,
    }
}

/// Decode one metadata-carrying raw record; `None` when the name bytes
/// are not valid text.
pub fn decode_dirent_info(raw: &RawDirentInfo) -> (r: Option<SmbDirentInfo>)
    ensures
        r is Some <==> spec_decodable_info(*raw),
        r matches Some(e) ==> e@ == spec_entry_info_of(*raw),
{
    match decode_name(slice_to_vec(raw.name.as_slice())) {
        Ok(name) => Some(
            SmbDirentInfo {
                name,
                attrs: raw.attrs,
                size: raw.size,
                uid: raw.uid,
                gid: raw.gid,
                created: raw.created,
                modified: raw.modified,
                accessed: raw.accessed,
                changed: raw.changed,
            },
        ),
        Err(_) => None,
    }
}

/// The visible entries of a metadata-carrying raw record sequence, in
/// reading order, under the same skip rules as [`spec_collect`].
pub open spec fn spec_collect_plus(records: Seq<RawDirentInfo>) -> Seq<DirentInfoView>
    decreases records.len(),
{
    if records.len() == 0 {
        Seq::empty()
    } else {
        let rest = spec_collect_plus(records.drop_first());
        if spec_decodable_info(records[0]) && spec_visible(spec_entry_info_of(records[0]).name) {
            seq![spec_entry_info_of(records[0])] + rest
        } else {
            rest
        }
    }
}

/// Decode and filter one metadata-carrying listing's raw records.
pub fn collect_entries_plus(records: &Vec<RawDirentInfo>) -> (r: Vec<SmbDirentInfo>)
    ensures
        r.deep_view() == spec_collect_plus(records@),
{
    let mut out: Vec<SmbDirentInfo> = Vec::new();
    let mut i: usize = 0;
    proof {
        assert(out.deep_view() =~= Seq::<DirentInfoView>::empty());
        assert(records@.skip(0) =~= records@);
        assert(out.deep_view() + spec_collect_plus(records@) =~= spec_collect_plus(records@));
    }
    while i < records.len()
        invariant
            i <= records@.len(),
            out.deep_view() + spec_collect_plus(records@.skip(i as int)) == spec_collect_plus(
                records@,
            ),
        decreases records@.len() - i,
    {
        let ghost pending = records@.skip(i as int);
        proof {
            assert(pending.drop_first() =~= records@.skip(i as int + 1));
            assert(pending[0] == records@[i as int]);
        }
        match decode_dirent_info(&records[i]) {
            Some(entry) => {
                if is_visible_name(entry.name()) {
                    let ghost old_out = out.deep_view();
                    out.push(entry);
                    proof {
                        assert(out.deep_view() =~= old_out.push(entry@));
                        assert(out.deep_view() + spec_collect_plus(pending.drop_first())
                            =~= old_out + spec_collect_plus(pending));
                    }
                }
            },
            None => {},
        }
        i += 1;
    }
    proof {
        assert(records@.skip(records@.len() as int) =~= Seq::<RawDirentInfo>::empty());
        assert(out.deep_view() =~= out.deep_view() + spec_collect_plus(
            records@.skip(records@.len() as int),
        ));
    }
    out
}

/// Enumeration of the metadata-carrying variant filters without
/// aborting, exactly as [`lemma_enumeration_filters`].
pub proof fn lemma_enumeration_filters_plus(records: Seq<RawDirentInfo>)
    ensures
        forall|i: int|
            0 <= i < spec_collect_plus(records).len() ==> spec_visible(
                #[trigger] spec_collect_plus(records)[i].name,
            ),
        spec_collect_plus(records).len() <= records.len(),
    decreases records.len(),
{
    if records.len() > 0 {
        lemma_enumeration_filters_plus(records.drop_first());
    }
}

/// Outcome of opening the directory itself: the engine signals failure
/// with a null directory handle, surfaced as an invalid handle before any
/// record is read.
pub fn dir_open_outcome(handle_null: bool) -> (r: SmbResult<()>)
    ensures
        r is Ok <==> !handle_null,
        handle_null ==> r == SmbResult::<()>::Err(SmbError::BadFileDescriptor),
{
    if handle_null {
        Err(SmbError::BadFileDescriptor)
    } else {
        Ok(())
    }
}

/// Enumeration filters without aborting: every entry of a listing is
/// visible (no `.`, no `..`, no empty name), a listing never shows more
/// entries than there were records, and a record that fails to decode
/// merely disappears from the listing — the entries of the remaining
/// records are untouched.
pub proof fn lemma_enumeration_filters(records: Seq<RawDirent>)
    ensures
        forall|i: int|
            0 <= i < spec_collect(records).len() ==> spec_visible(
                #[trigger] spec_collect(records)[i].name,
            ),
        spec_collect(records).len() <= records.len(),
    decreases records.len(),
{
    if records.len() > 0 {
        lemma_enumeration_filters(records.drop_first());
    }
}

/// A record that fails to decode never aborts enumeration: dropping it
/// from the raw sequence leaves the listing unchanged.
pub proof fn lemma_undecodable_record_skipped(records: Seq<RawDirent>, i: int)
    requires
        0 <= i < records.len(),
        !spec_decodable(records[i]),
    ensures
        spec_collect(records) == spec_collect(records.remove(i)),
    decreases records.len(),
{
    if i == 0 {
        assert(records.remove(0) =~= records.drop_first());
    } else {
        lemma_undecodable_record_skipped(records.drop_first(), i - 1);
        assert(records.remove(i).drop_first() =~= records.drop_first().remove(i - 1));
        assert(records.remove(i)[0] == records[0]);
    }
}

} // verus!
