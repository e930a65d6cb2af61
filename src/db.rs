//! Opening the RPM database.
//!
//! The database used is whichever one the RPM configuration names. Opening
//! reads that configuration, from the default location or from an explicit
//! file. The native library keeps the configuration in process-wide state:
//! opening a second time with another configuration is not supported.
//!
//! Opening runs in stages, each a value of its own. `DbBuilder::open` says
//! whether the configuration path must first be checked on the filesystem
//! (`Opening::CheckPath`) or the configuration can be read at once
//! (`Opening::ReadConfig`). The caller performs the stage and hands its
//! outcome to `resolve`, which yields the next stage, the opened `Db`, or
//! the error.
use crate::error::Error;
use crate::iterator::{is_live, next_state, valid_key, CursorState, CursorView, MatchIterator};
use crate::package::Package;
use crate::tag::{tag_number, Tag};
use vstd::prelude::*;

verus! {

/// A path as bytes, if there is one.
pub open spec fn path_bytes(p: Option<Vec<u8>>) -> Option<Seq<u8>> {
    match p {
        Some(v) => Some(v@),
        None => None,
    }
}

/// Whether a path holds a null byte, which no native string can carry.
pub open spec fn has_nul(p: Seq<u8>) -> bool {
    exists|i: int| 0 <= i < p.len() && p[i] == 0
}

/// `i` is the place of the first null byte in `p`.
pub open spec fn first_nul_at(p: Seq<u8>, i: int) -> bool {
    &&& 0 <= i < p.len()
    &&& p[i] == 0
    &&& forall|j: int| 0 <= j < i ==> p[j] != 0
}

/// The place of the first null byte of `p`, if any.
fn find_nul(p: &Vec<u8>) -> (r: Option<usize>)
    ensures
        match r {
            Some(i) => first_nul_at(p@, i as int),
            None => !has_nul(p@),
        },
{
    let mut i: usize = 0;
    while i < p.len()
        invariant
            i <= p.len(),
            forall|j: int| 0 <= j < i ==> p@[j] != 0,
        decreases p.len() - i,
    {
        if p[i] == 0 {
            return Some(i);
        }
        i = i + 1;
    }
    None
}

/// An open RPM database.
pub struct Db {
    config: Option<Vec<u8>>,
}

impl Db {
    /// The configuration file it was opened with; `None` for the default one.
    pub closed spec fn config(&self) -> Option<Seq<u8>> {
        path_bytes(self.config)
    }

    /// Starts opening the database with the default configuration.
    pub fn open() -> (r: Opening)
        ensures
            r matches Opening::ReadConfig(c) && c.path() is None,
    {
        DbBuilder::new().open()
    }

    /// A builder to open the database with options.
    pub fn open_with() -> (r: DbBuilder)
        ensures
            r.config() is None,
    {
        DbBuilder::default()
    }
}

/// Options for opening the database.
pub struct DbBuilder {
    config: Option<Vec<u8>>,
}

impl Default for DbBuilder {
    fn default() -> (r: Self)
        ensures
            r.config() is None,
    {
        DbBuilder { config: None }
    }
}

impl DbBuilder {
    /// The configuration file to read; `None` for the default location.
    pub closed spec fn config(&self) -> Option<Seq<u8>> {
        path_bytes(self.config)
    }

    /// A builder that reads the default configuration.
    pub fn new() -> (r: Self)
        ensures
            r.config() is None,
    {
        Self::default()
    }

    /// Reads the configuration from the file at `config` instead.
    pub fn with_config(&mut self, config: Vec<u8>)
        ensures
            final(self).config() == Some(config@),
    {
        self.config = Some(config);
    }

    /// The first stage of opening: an explicit path is checked on the
    /// filesystem before anything is read; the default location is read at
    /// once.
    pub fn open(self) -> (r: Opening)
        ensures
            self.config() is None ==> (r matches Opening::ReadConfig(c) && c.path() is None),
            self.config() matches Some(p) ==> (r matches Opening::CheckPath(c) && c.path() == p),
    {
        match self.config {
            Some(path) => Opening::CheckPath(PathCheck { path }),
            None => Opening::ReadConfig(ConfigRead { path: None }),
        }
    }
}

/// A stage of opening the database, which the caller performs.
pub enum Opening {
    /// Find out whether the configuration file exists.
    CheckPath(PathCheck),
    /// Read the configuration through the native library.
    ReadConfig(ConfigRead),
}

/// The stage that checks that the configuration file exists.
pub struct PathCheck {
    path: Vec<u8>,
}

impl PathCheck {
    /// The path to check.
    pub closed spec fn path(&self) -> Seq<u8> {
        self.path@
    }

    /// The path to check.
    pub fn path_ref(&self) -> (r: &Vec<u8>)
        ensures
            r@ == self.path(),
    {
        &self.path
    }

    /// Takes whether the file exists. A missing file fails before anything is
    /// read, naming the path; so does a path that no native string can hold.
    /// Otherwise the configuration is read from that path next.
    pub fn resolve(self, exists: bool) -> (r: Result<ConfigRead, Error>)
        ensures
            !exists ==> (r matches Err(Error::NoSuchFile { path }) && path@ == self.path()),
            exists && has_nul(self.path()) ==> (r matches Err(Error::InvalidPath { path, position })
                && path@ == self.path() && first_nul_at(self.path(), position as int)),
            exists && !has_nul(self.path()) ==> (r matches Ok(c) && c.path() == Some(self.path())),
    {
        if !exists {
            return Err(Error::NoSuchFile { path: self.path });
        }
        match find_nul(&self.path) {
            Some(position) => Err(Error::InvalidPath { path: self.path, position }),
            None => Ok(ConfigRead { path: Some(self.path) }),
        }
    }
}

/// The stage that reads the configuration through the native library.
pub struct ConfigRead {
    path: Option<Vec<u8>>,
}

impl ConfigRead {
    #[verifier::type_invariant]
    spec fn inv(&self) -> bool {
        match self.path {
            Some(p) => !has_nul(p@),
            None => true,
        }
    }

    /// The file to read; `None` for the default location. A path here holds
    /// no null byte.
    pub closed spec fn path(&self) -> Option<Seq<u8>> {
        path_bytes(self.path)
    }

    /// The file to read; `None` for the default location.
    pub fn path_ref(&self) -> (r: Option<&Vec<u8>>)
        ensures
            r is None <==> self.path() is None,
            r matches Some(p) ==> self.path() == Some(p@) && !has_nul(p@),
    {
        proof {
            use_type_invariant(self);
        }
        match &self.path {
            Some(p) => Some(p),
            None => None,
        }
    }

    /// Takes the status the native read returned: zero opens the database,
    /// anything else fails, naming the path.
    pub fn resolve(self, status: i32) -> (r: Result<Db, Error>)
        ensures
            r is Ok <==> status == 0,
            r matches Ok(db) ==> db.config() == self.path(),
            r matches Err(e) ==> (e matches Error::ReadConfig { path, status: s }
                && s == status && path_bytes(path) == self.path()),
    {
        if status == 0 {
            Ok(Db { config: self.path })
        } else {
            Err(Error::ReadConfig { path: self.path, status })
        }
    }
}


/// Iterator over the RPM database which returns `Package` values.
///
/// The caller reads the native cursor that `tag` and `key` describe: while
/// `wants_record` holds, it pulls the next header, projects it to a
/// `Package`, and passes it (or `None` at the end) to `next`. On drop it
/// frees the native cursor when `release` returns true.
pub struct Iter(MatchIterator);

impl View for Iter {
    type V = CursorView;

    closed spec fn view(&self) -> CursorView {
        self.0@
    }
}

impl Iter {
    /// Obtains the next package: the record read from the native cursor
    /// while the sequence is live, and nothing once it has ended.
    pub fn next(&mut self, fetched: Option<Package>) -> (r: Option<Package>)
        ensures
            final(self)@.tag == old(self)@.tag,
            final(self)@.key == old(self)@.key,
            final(self)@.state == next_state(old(self)@.state, fetched is Some),
            r == (if is_live(old(self)@.state) {
                fetched
            } else {
                None::<Package>
            }),
    {
        self.0.advance(fetched)
    }

    /// Whether the next call of `next` needs a record from the native cursor.
    pub fn wants_record(&self) -> (r: bool)
        ensures
            r == is_live(self@.state),
    {
        self.0.wants_record()
    }

    /// Ends the sequence; true where the native cursor must be freed now,
    /// which is so on the first call only.
    pub fn release(&mut self) -> (r: bool)
        ensures
            r == !(old(self)@.state is Released),
            final(self)@.state == CursorState::Released,
            final(self)@.tag == old(self)@.tag,
            final(self)@.key == old(self)@.key,
    {
        self.0.release()
    }

    /// The native tag the scan is scoped to.
    pub fn tag(&self) -> (r: Tag)
        ensures
            r == self@.tag,
    {
        self.0.tag()
    }

    /// The key that the tag's field must equal, if any.
    pub fn key(&self) -> (r: Option<&str>)
        ensures
            r is None <==> self@.key is None,
            r matches Some(k) ==> self@.key == Some(k@),
    {
        self.0.key()
    }
}

/// Searchable fields in the RPM package headers.
#[derive(Copy, Clone, Debug, PartialEq, Eq, Structural)]
pub enum Index {
    /// Search by package name.
    Name,
    /// Search by package version.
    Version,
    /// Search by package license.
    License,
    /// Search by package summary.
    Summary,
    /// Search by package description.
    Description,
}

/// The native tag that holds the field an `Index` names.
pub open spec fn index_tag(i: Index) -> Tag {
    match i {
        Index::Name => Tag::Name,
        Index::Version => Tag::Version,
        Index::License => Tag::License,
        Index::Summary => Tag::Summary,
        Index::Description => Tag::Description,
    }
}

impl From<Index> for Tag {
    fn from(i: Index) -> Tag {
        match i {
            Index::Name => Tag::Name,
            Index::Version => Tag::Version,
            Index::License => Tag::License,
            Index::Summary => Tag::Summary,
            Index::Description => Tag::Description,
        }
    }
}

impl vstd::std_specs::convert::FromSpecImpl<Index> for Tag {
    open spec fn obeys_from_spec() -> bool {
        true
    }

    open spec fn from_spec(i: Index) -> Tag {
        index_tag(i)
    }
}

impl Index {
    /// Finds an exact match in the given index: the packages whose field
    /// named by `self` equals `key`.
    ///
    /// The key must hold no null character.
    pub fn find(self, key: &str) -> (r: Iter)
        requires
            valid_key(key@),
        ensures
            r@ == (CursorView { tag: index_tag(self), key: Some(key@), state: CursorState::Created }),
    {
        Iter(MatchIterator::new(self.tag(), Some(key)))
    }

    /// The native tag of this field.
    pub fn tag(self) -> (r: Tag)
        ensures
            r == index_tag(self),
    {
        Tag::from(self)
    }
}

/// Every field maps to a tag of its own, and distinct tags carry distinct
/// native numbers: no two fields are searched through the same native index.
pub proof fn lemma_index_tags_distinct(a: Index, b: Index)
    ensures
        a != b ==> index_tag(a) != index_tag(b),
        a != b ==> tag_number(index_tag(a)) != tag_number(index_tag(b)),
{
}

/// Finds all packages installed on the local system. The scan is scoped to
/// the name tag only because the native cursor needs some tag; no key
/// filters it.
pub fn installed_packages() -> (r: Iter)
    ensures
        r@ == (CursorView { tag: Tag::Name, key: None, state: CursorState::Created }),
{
    Iter(MatchIterator::new(Tag::Name, None))
}

/// Finds installed packages whose field named by `index` exactly matches
/// `key`. The key must hold no null character.
pub fn find(index: Index, key: &str) -> (r: Iter)
    requires
        valid_key(key@),
    ensures
        r@ == (CursorView { tag: index_tag(index), key: Some(key@), state: CursorState::Created }),
{
    index.find(key)
}

} // verus!
