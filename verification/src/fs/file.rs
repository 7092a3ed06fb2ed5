//! File system entities.
//!
//! `Entry` is a closed sum type over `Directory` and `File`, each an immutable
//! snapshot of a filesystem object together with optional POSIX metadata
//! (owner, group, permission triples) and an optional owned symlink target.
//! `UnixPex` is one read/write/execute permission triple, convertible to and
//! from the conventional POSIX octal digit (bit 2 = read, bit 1 = write,
//! bit 0 = execute).

use vstd::prelude::*;

verus! {

/// Permissions of one class (owner, group or other) on a POSIX system:
/// an immutable read/write/execute triple.
#[derive(Debug, Clone, Copy, PartialEq, Eq, Structural)]
pub struct UnixPex {
    read: bool,
    write: bool,
    execute: bool,
}

impl UnixPex {
    /// Whether this triple grants reading.
    pub closed spec fn can_read_spec(self) -> bool {
        self.read
    }

    /// Whether this triple grants writing.
    pub closed spec fn can_write_spec(self) -> bool {
        self.write
    }

    /// Whether this triple grants execution.
    pub closed spec fn can_execute_spec(self) -> bool {
        self.execute
    }

    /// The triple decoded from the low three bits of a byte:
    /// bit 2 is read, bit 1 is write, bit 0 is execute; higher bits are ignored.
    pub closed spec fn from_byte_spec(bits: u8) -> UnixPex {
        UnixPex {
            read: (bits >> 2) & 1 != 0,
            write: (bits >> 1) & 1 != 0,
            execute: bits & 1 != 0,
        }
    }

    /// The triple encoded as a byte in `[0, 7]`, with the same bit layout
    /// that `from_byte_spec` decodes.
    pub closed spec fn as_byte_spec(self) -> u8 {
        (if self.read { 4u8 } else { 0u8 }) | (if self.write { 2u8 } else { 0u8 })
            | (if self.execute { 1u8 } else { 0u8 })
    }

    /// Instantiates a new `UnixPex` from its three flags.
    pub fn new(read: bool, write: bool, execute: bool) -> (r: Self)
        ensures
            r.can_read_spec() == read,
            r.can_write_spec() == write,
            r.can_execute_spec() == execute,
    {
        Self { read, write, execute }
    }

    /// Returns whether user can read.
    pub fn can_read(&self) -> (r: bool)
        ensures
            r == self.can_read_spec(),
    {
        self.read
    }

    /// Returns whether user can write.
    pub fn can_write(&self) -> (r: bool)
        ensures
            r == self.can_write_spec(),
    {
        self.write
    }

    /// Returns whether user can execute.
    pub fn can_execute(&self) -> (r: bool)
        ensures
            r == self.can_execute_spec(),
    {
        self.execute
    }

    /// Convert permission to byte as on POSIX systems.
    pub fn as_byte(&self) -> (r: u8)
        ensures
            r == self.as_byte_spec(),
    {
        (if self.read { 4u8 } else { 0u8 }) | (if self.write { 2u8 } else { 0u8 })
            | (if self.execute { 1u8 } else { 0u8 })
    }
}

impl core::convert::From<u8> for UnixPex {
    /// Decode a permission triple from the low three bits of a byte.
    fn from(bits: u8) -> (r: Self) {
        Self {
            read: (bits >> 2) & 1 != 0,
            write: (bits >> 1) & 1 != 0,
            execute: bits & 1 != 0,
        }
    }
}

impl vstd::std_specs::convert::FromSpecImpl<u8> for UnixPex {
    open spec fn obeys_from_spec() -> bool {
        true
    }

    open spec fn from_spec(bits: u8) -> UnixPex {
        UnixPex::from_byte_spec(bits)
    }
}

/// A generic entry in a directory listing: either a directory or a file.
#[derive(Debug)]
pub enum Entry {
    Directory(Directory),
    File(File),
}

/// A file system directory snapshot.
///
/// Timestamps are seconds since the Unix epoch. The owner id, group id and
/// permission triples are `None` on platforms without POSIX semantics.
#[derive(Debug)]
pub struct Directory {
    pub name: String,
    pub abs_path: String,
    pub last_change_time: u64,
    pub last_access_time: u64,
    pub creation_time: u64,
    pub symlink: Option<Box<Entry>>,
    pub user: Option<u32>,
    pub group: Option<u32>,
    pub unix_pex: Option<(UnixPex, UnixPex, UnixPex)>,
}

/// A file system file snapshot.
///
/// Same common fields as `Directory`, plus the size in bytes and an optional
/// type/extension string.
#[derive(Debug)]
pub struct File {
    pub name: String,
    pub abs_path: String,
    pub last_change_time: u64,
    pub last_access_time: u64,
    pub creation_time: u64,
    pub size: usize,
    pub ftype: Option<String>,
    pub symlink: Option<Box<Entry>>,
    pub user: Option<u32>,
    pub group: Option<u32>,
    pub unix_pex: Option<(UnixPex, UnixPex, UnixPex)>,
}

impl Entry {
    /// The entry's name.
    pub open spec fn name_spec(self) -> Seq<char> {
        match self {
            Entry::Directory(dir) => dir.name@,
            Entry::File(file) => file.name@,
        }
    }

    /// The entry's absolute path.
    pub open spec fn abs_path_spec(self) -> Seq<char> {
        match self {
            Entry::Directory(dir) => dir.abs_path@,
            Entry::File(file) => file.abs_path@,
        }
    }

    /// The entry's last-change time.
    pub open spec fn last_change_time_spec(self) -> u64 {
        match self {
            Entry::Directory(dir) => dir.last_change_time,
            Entry::File(file) => file.last_change_time,
        }
    }

    /// The entry's last-access time.
    pub open spec fn last_access_time_spec(self) -> u64 {
        match self {
            Entry::Directory(dir) => dir.last_access_time,
            Entry::File(file) => file.last_access_time,
        }
    }

    /// The entry's creation time.
    pub open spec fn creation_time_spec(self) -> u64 {
        match self {
            Entry::Directory(dir) => dir.creation_time,
            Entry::File(file) => file.creation_time,
        }
    }

    /// The entry's size in bytes: the stored size for a file, and the fixed
    /// sentinel 4096 for a directory.
    pub open spec fn size_spec(self) -> usize {
        match self {
            Entry::Directory(_) => 4096usize,
            Entry::File(file) => file.size,
        }
    }

    /// The entry's type/extension string: always `None` for a directory.
    pub open spec fn ftype_spec(self) -> Option<Seq<char>> {
        match self {
            Entry::Directory(_) => None,
            Entry::File(file) => match file.ftype {
                Some(t) => Some(t@),
                None => None,
            },
        }
    }

    /// The entry's owner id.
    pub open spec fn user_spec(self) -> Option<u32> {
        match self {
            Entry::Directory(dir) => dir.user,
            Entry::File(file) => file.user,
        }
    }

    /// The entry's group id.
    pub open spec fn group_spec(self) -> Option<u32> {
        match self {
            Entry::Directory(dir) => dir.group,
            Entry::File(file) => file.group,
        }
    }

    /// The entry's permission triples (owner, group, other).
    pub open spec fn unix_pex_spec(self) -> Option<(UnixPex, UnixPex, UnixPex)> {
        match self {
            Entry::Directory(dir) => dir.unix_pex,
            Entry::File(file) => file.unix_pex,
        }
    }

    /// The entry's symlink target, if any.
    pub open spec fn symlink_spec(self) -> Option<Box<Entry>> {
        match self {
            Entry::Directory(dir) => dir.symlink,
            Entry::File(file) => file.symlink,
        }
    }

    /// An entry is hidden exactly when its name starts with `.`.
    pub open spec fn is_hidden_spec(self) -> bool {
        self.name_spec().len() > 0 && self.name_spec()[0] == '.'
    }

    /// The entry ultimately referenced by following the chain of symlink
    /// targets to its end: the entry itself when it carries no symlink.
    pub open spec fn realfile_spec(self) -> Entry
        decreases self,
    {
        match self {
            Entry::Directory(dir) => match dir.symlink {
                Some(target) => target.realfile_spec(),
                None => self,
            },
            Entry::File(file) => match file.symlink {
                Some(target) => target.realfile_spec(),
                None => self,
            },
        }
    }

    /// Get absolute path from `Entry`.
    pub fn get_abs_path(&self) -> (r: String)
        ensures
            r@ == self.abs_path_spec(),
    {
        match self {
            Entry::Directory(dir) => dir.abs_path.clone(),
            Entry::File(file) => file.abs_path.clone(),
        }
    }

    /// Get file name from `Entry`.
    pub fn get_name(&self) -> (r: &str)
        ensures
            r@ == self.name_spec(),
    {
        match self {
            Entry::Directory(dir) => dir.name.as_str(),
            Entry::File(file) => file.name.as_str(),
        }
    }

    /// Get last change time from `Entry`.
    pub fn get_last_change_time(&self) -> (r: u64)
        ensures
            r == self.last_change_time_spec(),
    {
        match self {
            Entry::Directory(dir) => dir.last_change_time,
            Entry::File(file) => file.last_change_time,
        }
    }

    /// Get access time from `Entry`.
    pub fn get_last_access_time(&self) -> (r: u64)
        ensures
            r == self.last_access_time_spec(),
    {
        match self {
            Entry::Directory(dir) => dir.last_access_time,
            Entry::File(file) => file.last_access_time,
        }
    }

    /// Get creation time from `Entry`.
    pub fn get_creation_time(&self) -> (r: u64)
        ensures
            r == self.creation_time_spec(),
    {
        match self {
            Entry::Directory(dir) => dir.creation_time,
            Entry::File(file) => file.creation_time,
        }
    }

    /// Get size from `Entry`. For directories it is always 4096.
    pub fn get_size(&self) -> (r: usize)
        ensures
            r == self.size_spec(),
    {
        match self {
            Entry::Directory(_) => 4096,
            Entry::File(file) => file.size,
        }
    }

    /// Get file type from `Entry`. For directories it is always `None`.
    pub fn get_ftype(&self) -> (r: Option<String>)
        ensures
            (r matches Some(t) ==> self.ftype_spec() == Some(t@)),
            (r is None ==> self.ftype_spec() is None),
    {
        match self {
            Entry::Directory(_) => None,
            Entry::File(file) => match &file.ftype {
                Some(t) => Some(t.clone()),
                None => None,
            },
        }
    }

    /// Get uid from `Entry`.
    pub fn get_user(&self) -> (r: Option<u32>)
        ensures
            r == self.user_spec(),
    {
        match self {
            Entry::Directory(dir) => dir.user,
            Entry::File(file) => file.user,
        }
    }

    /// Get gid from `Entry`.
    pub fn get_group(&self) -> (r: Option<u32>)
        ensures
            r == self.group_spec(),
    {
        match self {
            Entry::Directory(dir) => dir.group,
            Entry::File(file) => file.group,
        }
    }

    /// Get unix pex from `Entry`.
    pub fn get_unix_pex(&self) -> (r: Option<(UnixPex, UnixPex, UnixPex)>)
        ensures
            r == self.unix_pex_spec(),
    {
        match self {
            Entry::Directory(dir) => dir.unix_pex,
            Entry::File(file) => file.unix_pex,
        }
    }

    /// Returns whether the `Entry` is a symlink, for directories and files alike.
    pub fn is_symlink(&self) -> (r: bool)
        ensures
            r == (self.symlink_spec() is Some),
    {
        match self {
            Entry::Directory(dir) => dir.symlink.is_some(),
            Entry::File(file) => file.symlink.is_some(),
        }
    }

    /// Returns whether the `Entry` is a directory.
    pub fn is_dir(&self) -> (r: bool)
        ensures
            r == (self is Directory),
    {
        matches!(self, Entry::Directory(_))
    }

    /// Returns whether the `Entry` is a file.
    pub fn is_file(&self) -> (r: bool)
        ensures
            r == (self is File),
    {
        matches!(self, Entry::File(_))
    }

    /// Returns whether the `Entry` is hidden, that is, whether its name starts
    /// with `.`.
    pub fn is_hidden(&self) -> (r: bool)
        ensures
            r == self.is_hidden_spec(),
    {
        let name = self.get_name();
        if name.is_empty() {
            false
        } else {
            name.get_char(0) == '.'
        }
    }

    /// Return the real file pointed to by an `Entry`: a copy of the terminal
    /// entry of its symlink chain, or of the entry itself when it carries no
    /// symlink. Each entry exclusively owns its target, so the chain is a
    /// finite list and the walk provably terminates: a cyclic chain cannot
    /// even be constructed.
    pub fn get_realfile(&self) -> (r: Entry)
        ensures
            r == self.realfile_spec(),
        decreases self,
    {
        match self {
            Entry::Directory(dir) => match &dir.symlink {
                Some(symlink) => symlink.get_realfile(),
                None => self.clone(),
            },
            Entry::File(file) => match &file.symlink {
                Some(symlink) => symlink.get_realfile(),
                None => self.clone(),
            },
        }
    }

    /// Unwrap `Entry` as `File`. Extracting the payload of the wrong variant
    /// is a programmer error, ruled out by the precondition.
    pub fn unwrap_file(self) -> (r: File)
        requires
            self is File,
        ensures
            Entry::File(r) == self,
    {
        match self {
            Entry::File(file) => file,
            _ => vstd::pervasive::unreached(),
        }
    }

    /// Unwrap `Entry` as `Directory`. Extracting the payload of the wrong
    /// variant is a programmer error, ruled out by the precondition.
    pub fn unwrap_dir(self) -> (r: Directory)
        requires
            self is Directory,
        ensures
            Entry::Directory(r) == self,
    {
        match self {
            Entry::Directory(dir) => dir,
            _ => vstd::pervasive::unreached(),
        }
    }
}

impl Clone for Entry {
    /// Duplicating an entry deep-copies it, its whole symlink chain included:
    /// the copy equals the original.
    fn clone(&self) -> (r: Self)
        ensures
            r == *self,
        decreases self,
    {
        match self {
            Entry::Directory(dir) => Entry::Directory(dir.clone()),
            Entry::File(file) => Entry::File(file.clone()),
        }
    }
}

impl Clone for Directory {
    /// Deep copy: the copy equals the original.
    fn clone(&self) -> (r: Self)
        ensures
            r == *self,
        decreases self,
    {
        Directory {
            name: self.name.clone(),
            abs_path: self.abs_path.clone(),
            last_change_time: self.last_change_time,
            last_access_time: self.last_access_time,
            creation_time: self.creation_time,
            symlink: (match &self.symlink {
                Some(target) => Some(Box::new((&**target).clone())),
                None => None,
            }),
            user: self.user,
            group: self.group,
            unix_pex: self.unix_pex,
        }
    }
}

impl Clone for File {
    /// Deep copy: the copy equals the original.
    fn clone(&self) -> (r: Self)
        ensures
            r == *self,
        decreases self,
    {
        File {
            name: self.name.clone(),
            abs_path: self.abs_path.clone(),
            last_change_time: self.last_change_time,
            last_access_time: self.last_access_time,
            creation_time: self.creation_time,
            size: self.size,
            ftype: (match &self.ftype {
                Some(t) => Some(t.clone()),
                None => None,
            }),
            symlink: (match &self.symlink {
                Some(target) => Some(Box::new((&**target).clone())),
                None => None,
            }),
            user: self.user,
            group: self.group,
            unix_pex: self.unix_pex,
        }
    }
}

/// Every accessor is total over both variants: for a directory entry it
/// projects the directory's own fields, with the fixed size sentinel 4096 and
/// no type string; for a file entry it projects the file's own fields.
pub proof fn lemma_accessors_exact(e: Entry)
    ensures
        e matches Entry::Directory(dir) ==> {
            &&& e.name_spec() == dir.name@
            &&& e.abs_path_spec() == dir.abs_path@
            &&& e.last_change_time_spec() == dir.last_change_time
            &&& e.last_access_time_spec() == dir.last_access_time
            &&& e.creation_time_spec() == dir.creation_time
            &&& e.size_spec() == 4096usize
            &&& e.ftype_spec() is None
            &&& e.user_spec() == dir.user
            &&& e.group_spec() == dir.group
            &&& e.unix_pex_spec() == dir.unix_pex
            &&& e.symlink_spec() == dir.symlink
        },
        e matches Entry::File(file) ==> {
            &&& e.name_spec() == file.name@
            &&& e.abs_path_spec() == file.abs_path@
            &&& e.last_change_time_spec() == file.last_change_time
            &&& e.last_access_time_spec() == file.last_access_time
            &&& e.creation_time_spec() == file.creation_time
            &&& e.size_spec() == file.size
            &&& e.user_spec() == file.user
            &&& e.group_spec() == file.group
            &&& e.unix_pex_spec() == file.unix_pex
            &&& e.symlink_spec() == file.symlink
        },
{
}

/// An entry is hidden exactly when its name starts with `.`, independent of
/// its variant and of every other field.
pub proof fn lemma_hidden_iff_dot(e: Entry)
    ensures
        e.is_hidden_spec() <==> (e.name_spec().len() > 0 && e.name_spec()[0] == '.'),
{
}

/// Dereferencing an entry that carries no symlink returns the entry itself,
/// so in particular an entry with the same absolute path.
pub proof fn lemma_realfile_no_symlink(e: Entry)
    requires
        e.symlink_spec() is None,
    ensures
        e.realfile_spec() == e,
        e.realfile_spec().abs_path_spec() == e.abs_path_spec(),
{
}

/// Dereferencing an entry that carries a symlink dereferences its target:
/// the walk follows the chain one hop at a time.
pub proof fn lemma_realfile_follows_symlink(e: Entry, target: Box<Entry>)
    requires
        e.symlink_spec() == Some(target),
    ensures
        e.realfile_spec() == target.realfile_spec(),
{
}

/// The dereferenced entry is terminal: it carries no symlink itself.
pub proof fn lemma_realfile_terminal(e: Entry)
    ensures
        e.realfile_spec().symlink_spec() is None,
    decreases e,
{
    match e {
        Entry::Directory(dir) => {
            if let Some(target) = dir.symlink {
                lemma_realfile_terminal(*target);
            }
        },
        Entry::File(file) => {
            if let Some(target) = file.symlink {
                lemma_realfile_terminal(*target);
            }
        },
    }
}

/// Two permission triples are equal exactly when all three of their flags agree.
pub proof fn lemma_pex_eq(a: UnixPex, b: UnixPex)
    ensures
        (a == b) <==> (a.can_read_spec() == b.can_read_spec()
            && a.can_write_spec() == b.can_write_spec()
            && a.can_execute_spec() == b.can_execute_spec()),
{
}

/// Decoding a byte yields exactly the three bits of its low octal digit as flags.
pub proof fn lemma_from_byte_flags(v: u8)
    ensures
        UnixPex::from_byte_spec(v).can_read_spec() == ((v >> 2) & 1 != 0),
        UnixPex::from_byte_spec(v).can_write_spec() == ((v >> 1) & 1 != 0),
        UnixPex::from_byte_spec(v).can_execute_spec() == (v & 1 != 0),
{
}

/// Encoding never leaves the octal-digit range, and adds the three flag weights.
pub proof fn lemma_as_byte_range(p: UnixPex)
    ensures
        p.as_byte_spec() <= 7,
        p.as_byte_spec() == (if p.can_read_spec() { 4int } else { 0int })
            + (if p.can_write_spec() { 2int } else { 0int })
            + (if p.can_execute_spec() { 1int } else { 0int }),
{
    let r = p.can_read_spec();
    let w = p.can_write_spec();
    let x = p.can_execute_spec();
    assert(((if r { 4u8 } else { 0u8 }) | (if w { 2u8 } else { 0u8 }) | (if x { 1u8 } else {
        0u8
    })) <= 7) by (bit_vector);
    assert(((if r { 4u8 } else { 0u8 }) | (if w { 2u8 } else { 0u8 }) | (if x { 1u8 } else {
        0u8
    })) == (if r { 4u8 } else { 0u8 }) + (if w { 2u8 } else { 0u8 }) + (if x { 1u8 } else {
        0u8
    })) by (bit_vector);
}

/// Decode then encode restores a byte's low three bits: `as_byte(from_byte(v)) == v & 7`,
/// so the round trip is the identity on every value already in `[0, 7]`.
pub proof fn lemma_from_byte_as_byte(v: u8)
    ensures
        UnixPex::from_byte_spec(v).as_byte_spec() == v & 7,
        v < 8 ==> UnixPex::from_byte_spec(v).as_byte_spec() == v,
{
    assert(((if ((v >> 2) & 1 != 0) { 4u8 } else { 0u8 }) | (if ((v >> 1) & 1 != 0) { 2u8 } else {
        0u8
    }) | (if (v & 1 != 0) { 1u8 } else { 0u8 })) == v & 7) by (bit_vector);
    assert(v < 8 ==> v & 7 == v) by (bit_vector);
}

/// Encode then decode restores the triple: `from_byte(as_byte(p)) == p`.
pub proof fn lemma_as_byte_from_byte(p: UnixPex)
    ensures
        UnixPex::from_byte_spec(p.as_byte_spec()) == p,
{
    let r = p.can_read_spec();
    let w = p.can_write_spec();
    let x = p.can_execute_spec();
    let b = p.as_byte_spec();
    assert(b == (if r { 4u8 } else { 0u8 }) | (if w { 2u8 } else { 0u8 }) | (if x { 1u8 } else {
        0u8
    }));
    assert((((if r { 4u8 } else { 0u8 }) | (if w { 2u8 } else { 0u8 }) | (if x { 1u8 } else {
        0u8
    })) >> 2) & 1 != 0 == r) by (bit_vector);
    assert((((if r { 4u8 } else { 0u8 }) | (if w { 2u8 } else { 0u8 }) | (if x { 1u8 } else {
        0u8
    })) >> 1) & 1 != 0 == w) by (bit_vector);
    assert(((if r { 4u8 } else { 0u8 }) | (if w { 2u8 } else { 0u8 }) | (if x { 1u8 } else {
        0u8
    })) & 1 != 0 == x) by (bit_vector);
}

} // verus!
