//! File mode words: a file-type tag, nine permission bits and the three
//! special bits (setuid, setgid, sticky), each in its own bit range.

use vstd::prelude::*;

verus! {

/// Mask of the file-type tag inside a mode word.
pub const S_IFMT: u32 = 0o170000;

pub const S_IFSOCK: u32 = 0o140000;

pub const S_IFLNK: u32 = 0o120000;

pub const S_IFREG: u32 = 0o100000;

pub const S_IFBLK: u32 = 0o060000;

pub const S_IFDIR: u32 = 0o040000;

pub const S_IFCHR: u32 = 0o020000;

pub const S_IFIFO: u32 = 0o010000;

pub const S_ISUID: u32 = 0o4000;

pub const S_ISGID: u32 = 0o2000;

pub const S_ISVTX: u32 = 0o1000;

/// Mask of the permission bits, and their largest value.
pub const PERMISSION_MASK: u32 = 0o777;

/// Mask of the three special bits.
pub const SPECIAL_MASK: u32 = 0o7000;

/// The kind of object a mode word describes.
#[derive(Clone, Copy, Debug, PartialEq, Eq, Structural)]
pub enum FileType {
    BlockDevice,
    CharacterDevice,
    Fifo,
    RegularFile,
    Directory,
    SymbolicLink,
    Socket,
}

/// The native bit pattern of a file type.
pub open spec fn type_tag(file_type: FileType) -> u32 {
    match file_type {
        FileType::BlockDevice => S_IFBLK,
        FileType::CharacterDevice => S_IFCHR,
        FileType::Fifo => S_IFIFO,
        FileType::RegularFile => S_IFREG,
        FileType::Directory => S_IFDIR,
        FileType::SymbolicLink => S_IFLNK,
        FileType::Socket => S_IFSOCK,
    }
}

/// The file type that a tag stands for, if any.
pub open spec fn tag_file_type(tag: u32) -> Option<FileType> {
    if tag == S_IFBLK {
        Some(FileType::BlockDevice)
    } else if tag == S_IFCHR {
        Some(FileType::CharacterDevice)
    } else if tag == S_IFIFO {
        Some(FileType::Fifo)
    } else if tag == S_IFREG {
        Some(FileType::RegularFile)
    } else if tag == S_IFDIR {
        Some(FileType::Directory)
    } else if tag == S_IFLNK {
        Some(FileType::SymbolicLink)
    } else if tag == S_IFSOCK {
        Some(FileType::Socket)
    } else {
        None
    }
}

/// The mode word made of a file type, permission bits and special bits.
pub open spec fn mode_word(file_type: FileType, permissions: u32, special: u32) -> u32 {
    type_tag(file_type) | permissions | special
}

/// The file type recorded in a mode word, if its tag is a known one.
pub open spec fn word_file_type(word: u32) -> Option<FileType> {
    tag_file_type(word & S_IFMT)
}

/// The permission bits recorded in a mode word.
pub open spec fn word_permissions(word: u32) -> u32 {
    word & PERMISSION_MASK
}

/// The special bits recorded in a mode word.
pub open spec fn word_special(word: u32) -> u32 {
    word & SPECIAL_MASK
}

/// Three fields that lie inside their masks do not disturb one another when
/// they are joined into one word.
pub proof fn lemma_fields_disjoint(tag: u32, permissions: u32, special: u32)
    by (bit_vector)
    requires
        tag & 0o170000 == tag,
        permissions <= 0o777,
        special & 0o7000 == special,
    ensures
        (tag | permissions | special) & 0o170000 == tag,
        (tag | permissions | special) & 0o777 == permissions,
        (tag | permissions | special) & 0o7000 == special,
{
}

/// Every file-type tag lies inside the tag mask.
pub proof fn lemma_tag_in_mask(file_type: FileType)
    ensures
        type_tag(file_type) & S_IFMT == type_tag(file_type),
        tag_file_type(type_tag(file_type)) == Some(file_type),
{
    assert(0o060000u32 & 0o170000 == 0o060000 && 0o020000u32 & 0o170000 == 0o020000 && 0o010000u32
        & 0o170000 == 0o010000 && 0o100000u32 & 0o170000 == 0o100000 && 0o040000u32 & 0o170000
        == 0o040000 && 0o120000u32 & 0o170000 == 0o120000 && 0o140000u32 & 0o170000 == 0o140000)
        by (bit_vector);
}

/// A mode word made of a file type, permission bits of at most `0o777` and
/// special bits inside their mask is the bitwise union of the three, and each
/// of them can be read back from it.
pub proof fn lemma_mode_word_roundtrip(file_type: FileType, permissions: u32, special: u32)
    requires
        permissions <= PERMISSION_MASK,
        special & SPECIAL_MASK == special,
    ensures
        mode_word(file_type, permissions, special) == type_tag(file_type) | permissions | special,
        word_file_type(mode_word(file_type, permissions, special)) == Some(file_type),
        word_permissions(mode_word(file_type, permissions, special)) == permissions,
        word_special(mode_word(file_type, permissions, special)) == special,
{
    lemma_tag_in_mask(file_type);
    lemma_fields_disjoint(type_tag(file_type), permissions, special);
}

impl FileType {
    /// The native bit pattern of this file type.
    pub fn tag(self) -> (tag: u32)
        ensures
            tag == type_tag(self),
    {
        match self {
            FileType::BlockDevice => S_IFBLK,
            FileType::CharacterDevice => S_IFCHR,
            FileType::Fifo => S_IFIFO,
            FileType::RegularFile => S_IFREG,
            FileType::Directory => S_IFDIR,
            FileType::SymbolicLink => S_IFLNK,
            FileType::Socket => S_IFSOCK,
        }
    }

    /// Reads the file type out of a mode word.
    pub fn from_mode(word: u32) -> (file_type: Option<FileType>)
        ensures
            file_type == word_file_type(word),
    {
        let tag: u32 = word & S_IFMT;
        if tag == S_IFBLK {
            Some(FileType::BlockDevice)
        } else if tag == S_IFCHR {
            Some(FileType::CharacterDevice)
        } else if tag == S_IFIFO {
            Some(FileType::Fifo)
        } else if tag == S_IFREG {
            Some(FileType::RegularFile)
        } else if tag == S_IFDIR {
            Some(FileType::Directory)
        } else if tag == S_IFLNK {
            Some(FileType::SymbolicLink)
        } else if tag == S_IFSOCK {
            Some(FileType::Socket)
        } else {
            None
        }
    }
}


/// A value that lies outside the range accepted for a field of a mode word.
#[derive(Clone, Copy, Debug, PartialEq, Eq, Structural)]
pub struct ModeRangeError {
    /// The value that was refused.
    pub value: u32,
    /// The smallest value that is accepted.
    pub min: u32,
    /// The largest value that is accepted.
    pub max: u32,
}

/// Permission bits, never above `0o777`.
#[derive(Clone, Copy, Debug)]
pub struct FilePermissions {
    bits: u32,
}

impl View for FilePermissions {
    type V = u32;

    closed spec fn view(&self) -> u32 {
        self.bits
    }
}

impl FilePermissions {
    #[verifier::type_invariant]
    spec fn in_range(self) -> bool {
        self.bits <= PERMISSION_MASK
    }

    /// Accepts `value` if it is at most `0o777`; otherwise reports the value
    /// together with the range that is accepted.
    pub fn new(value: u32) -> (r: Result<FilePermissions, ModeRangeError>)
        ensures
            value <= PERMISSION_MASK ==> r is Ok && r->Ok_0@ == value,
            value > PERMISSION_MASK ==> r == Err::<FilePermissions, ModeRangeError>(
                ModeRangeError { value, min: 0, max: PERMISSION_MASK },
            ),
    {
        if value <= PERMISSION_MASK {
            Ok(FilePermissions { bits: value })
        } else {
            Err(ModeRangeError { value, min: 0, max: PERMISSION_MASK })
        }
    }

    /// The permission bits.
    pub fn bits(&self) -> (bits: u32)
        ensures
            bits == self@,
            bits <= PERMISSION_MASK,
    {
        proof {
            use_type_invariant(self);
        }
        self.bits
    }

    /// Reads the permission bits out of a mode word.
    pub fn from_mode(word: u32) -> (permissions: FilePermissions)
        ensures
            permissions@ == word_permissions(word),
    {
        let bits: u32 = word & PERMISSION_MASK;
        assert(word & 0o777 <= 0o777) by (bit_vector);
        FilePermissions { bits }
    }
}

/// The three special bits of a mode word.
#[derive(Clone, Copy, Debug, PartialEq, Eq, Structural)]
pub struct ModeFlags {
    pub setuid: bool,
    pub setgid: bool,
    pub sticky: bool,
}

/// The bit pattern of a set of special bits.
pub open spec fn special_bits(flags: ModeFlags) -> u32 {
    (if flags.setuid { S_ISUID } else { 0 }) | (if flags.setgid { S_ISGID } else { 0 }) | (
    if flags.sticky { S_ISVTX } else { 0 })
}

/// The special bits that are set in a mode word.
pub open spec fn word_mode_flags(word: u32) -> ModeFlags {
    ModeFlags {
        setuid: word & S_ISUID != 0,
        setgid: word & S_ISGID != 0,
        sticky: word & S_ISVTX != 0,
    }
}

/// The bit pattern of any set of special bits lies inside the special mask,
/// and the set can be read back from it.
pub proof fn lemma_special_bits(flags: ModeFlags)
    ensures
        special_bits(flags) & SPECIAL_MASK == special_bits(flags),
        word_mode_flags(special_bits(flags)) == flags,
{
    let a: u32 = if flags.setuid { S_ISUID } else { 0 };
    let b: u32 = if flags.setgid { S_ISGID } else { 0 };
    let c: u32 = if flags.sticky { S_ISVTX } else { 0 };
    assert((a == 0 || a == 0o4000) && (b == 0 || b == 0o2000) && (c == 0 || c == 0o1000) ==> (a | b
        | c) & 0o7000 == (a | b | c) && (((a | b | c) & 0o4000 != 0) <==> a != 0) && (((a | b | c)
        & 0o2000 != 0) <==> b != 0) && (((a | b | c) & 0o1000 != 0) <==> c != 0)) by (bit_vector);
}

impl ModeFlags {
    /// No special bit set.
    pub fn none() -> (flags: ModeFlags)
        ensures
            flags == (ModeFlags { setuid: false, setgid: false, sticky: false }),
    {
        ModeFlags { setuid: false, setgid: false, sticky: false }
    }

    /// The bit pattern of these special bits.
    pub fn bits(&self) -> (bits: u32)
        ensures
            bits == special_bits(*self),
            bits & SPECIAL_MASK == bits,
    {
        proof {
            lemma_special_bits(*self);
        }
        let a: u32 = if self.setuid { S_ISUID } else { 0 };
        let b: u32 = if self.setgid { S_ISGID } else { 0 };
        let c: u32 = if self.sticky { S_ISVTX } else { 0 };
        a | b | c
    }

    /// Reads the special bits out of a mode word.
    pub fn from_mode(word: u32) -> (flags: ModeFlags)
        ensures
            flags == word_mode_flags(word),
    {
        ModeFlags {
            setuid: word & S_ISUID != 0,
            setgid: word & S_ISGID != 0,
            sticky: word & S_ISVTX != 0,
        }
    }
}

/// A mode in its three typed parts.
#[derive(Clone, Copy, Debug)]
pub struct TypedMode {
    pub file_type: FileType,
    pub permissions: FilePermissions,
    pub flags: ModeFlags,
}

impl TypedMode {
    /// The mode word that this mode stands for.
    pub open spec fn spec_word(self) -> u32 {
        mode_word(self.file_type, self.permissions@, special_bits(self.flags))
    }

    /// Joins the three parts into a mode word.
    pub fn word(&self) -> (word: u32)
        ensures
            word == self.spec_word(),
            word == type_tag(self.file_type) | self.permissions@ | special_bits(self.flags),
            word_file_type(word) == Some(self.file_type),
            word_permissions(word) == self.permissions@,
            word_mode_flags(word) == self.flags,
            valid_mode_word(word),
    {
        let tag: u32 = self.file_type.tag();
        let permissions: u32 = self.permissions.bits();
        let special: u32 = self.flags.bits();
        proof {
            lemma_mode_word_roundtrip(self.file_type, permissions, special);
            lemma_special_bits(self.flags);
            lemma_special_survives(tag | permissions | special);
        }
        tag | permissions | special
    }

    /// Splits a mode word into its three parts; `None` when its tag names
    /// no file type.
    pub fn from_word(word: u32) -> (mode: Option<TypedMode>)
        ensures
            word_file_type(word) is None ==> mode is None,
            word_file_type(word) matches Some(file_type) ==> mode matches Some(m) && m.file_type
                == file_type && m.permissions@ == word_permissions(word) && m.flags
                == word_mode_flags(word),
    {
        match FileType::from_mode(word) {
            None => None,
            Some(file_type) => Some(
                TypedMode {
                    file_type,
                    permissions: FilePermissions::from_mode(word),
                    flags: ModeFlags::from_mode(word),
                },
            ),
        }
    }
}

/// A word is a valid mode word when its tag names a file type and no bit
/// lies outside the three fields.
pub open spec fn valid_mode_word(word: u32) -> bool {
    word_file_type(word) matches Some(file_type) && word == mode_word(
        file_type,
        word_permissions(word),
        word_special(word),
    )
}

/// A file-type tag joined with rest bits of at most `0o7777` is a valid mode
/// word that keeps the tag, and joining is the same as adding.
pub proof fn lemma_tag_with_rest(file_type: FileType, rest: u32)
    requires
        rest <= PERMISSION_MASK + SPECIAL_MASK,
    ensures
        valid_mode_word(type_tag(file_type) | rest),
        word_file_type(type_tag(file_type) | rest) == Some(file_type),
        word_permissions(type_tag(file_type) | rest) == rest & PERMISSION_MASK,
        word_special(type_tag(file_type) | rest) == rest & SPECIAL_MASK,
        type_tag(file_type) | rest == type_tag(file_type) + rest,
{
    lemma_tag_in_mask(file_type);
    let tag = type_tag(file_type);
    assert(tag & 0o170000 == tag && rest <= 0o7777 ==> (tag | rest) & 0o170000 == tag && (tag
        | rest) & 0o777 == rest & 0o777 && (tag | rest) & 0o7000 == rest & 0o7000 && (tag | rest)
        == tag | (rest & 0o777) | (rest & 0o7000) && (tag | rest) == tag + rest) by (bit_vector);
}

/// The special field of a word is the bit pattern of the special bits that
/// are set in it.
pub proof fn lemma_special_word(word: u32)
    ensures
        special_bits(word_mode_flags(word)) == word_special(word),
{
    let a: u32 = if word & S_ISUID != 0 { S_ISUID } else { 0 };
    let b: u32 = if word & S_ISGID != 0 { S_ISGID } else { 0 };
    let c: u32 = if word & S_ISVTX != 0 { S_ISVTX } else { 0 };
    assert(a == (if word & 0o4000 != 0 { 0o4000u32 } else { 0 }) && b == (if word & 0o2000 != 0 {
        0o2000u32
    } else {
        0
    }) && c == (if word & 0o1000 != 0 { 0o1000u32 } else { 0 }) ==> (a | b | c) == word & 0o7000)
        by (bit_vector);
}

/// Each special bit of a word is the same bit of the word's special field.
pub proof fn lemma_special_survives(word: u32)
    ensures
        word_mode_flags(word_special(word)) == word_mode_flags(word),
{
    assert(((word & 0o7000) & 0o4000 != 0) == (word & 0o4000 != 0) && ((word & 0o7000) & 0o2000
        != 0) == (word & 0o2000 != 0) && ((word & 0o7000) & 0o1000 != 0) == (word & 0o1000 != 0))
        by (bit_vector);
}


/// Builds a [`TypedMode`] step by step. `T` records that the file type has
/// been given and `P` that the permissions have; only a builder with both
/// can build.
#[derive(Clone, Copy, Debug)]
pub struct TypedModeBuilder<const T: bool, const P: bool> {
    file_type: Option<FileType>,
    permissions: Option<FilePermissions>,
    flags: ModeFlags,
}

impl<const T: bool, const P: bool> TypedModeBuilder<T, P> {
    #[verifier::type_invariant]
    spec fn filled(self) -> bool {
        &&& T ==> self.file_type is Some
        &&& P ==> self.permissions is Some
    }

    /// The file type given so far.
    pub closed spec fn spec_file_type(self) -> Option<FileType> {
        self.file_type
    }

    /// The permissions given so far.
    pub closed spec fn spec_permissions(self) -> Option<FilePermissions> {
        self.permissions
    }

    /// The special bits given so far.
    pub closed spec fn spec_flags(self) -> ModeFlags {
        self.flags
    }

    /// Replaces the special bits; everything else stays.
    pub fn flags(self, flags: ModeFlags) -> (next: TypedModeBuilder<T, P>)
        ensures
            next.spec_file_type() == self.spec_file_type(),
            next.spec_permissions() == self.spec_permissions(),
            next.spec_flags() == flags,
    {
        proof {
            use_type_invariant(self);
        }
        TypedModeBuilder { file_type: self.file_type, permissions: self.permissions, flags }
    }
}

impl TypedModeBuilder<false, false> {
    /// A builder with nothing given and no special bit set.
    pub fn builder() -> (start: TypedModeBuilder<false, false>)
        ensures
            start.spec_file_type() is None,
            start.spec_permissions() is None,
            start.spec_flags() == (ModeFlags { setuid: false, setgid: false, sticky: false }),
    {
        TypedModeBuilder { file_type: None, permissions: None, flags: ModeFlags::none() }
    }
}

impl<const P: bool> TypedModeBuilder<false, P> {
    /// Gives the file type; everything else stays.
    pub fn file_type(self, file_type: FileType) -> (next: TypedModeBuilder<true, P>)
        ensures
            next.spec_file_type() == Some(file_type),
            next.spec_permissions() == self.spec_permissions(),
            next.spec_flags() == self.spec_flags(),
    {
        proof {
            use_type_invariant(self);
        }
        TypedModeBuilder {
            file_type: Some(file_type),
            permissions: self.permissions,
            flags: self.flags,
        }
    }
}

impl<const T: bool> TypedModeBuilder<T, false> {
    /// Gives the permissions; everything else stays.
    pub fn permissions(self, permissions: FilePermissions) -> (next: TypedModeBuilder<T, true>)
        ensures
            next.spec_file_type() == self.spec_file_type(),
            next.spec_permissions() == Some(permissions),
            next.spec_flags() == self.spec_flags(),
    {
        proof {
            use_type_invariant(self);
        }
        TypedModeBuilder {
            file_type: self.file_type,
            permissions: Some(permissions),
            flags: self.flags,
        }
    }
}

impl TypedModeBuilder<true, true> {
    /// The mode made of what was given.
    pub fn build(self) -> (mode: TypedMode)
        ensures
            self.spec_file_type() == Some(mode.file_type),
            self.spec_permissions() == Some(mode.permissions),
            mode.flags == self.spec_flags(),
    {
        proof {
            use_type_invariant(self);
        }
        match (self.file_type, self.permissions) {
            (Some(file_type), Some(permissions)) => TypedMode {
                file_type,
                permissions,
                flags: self.flags,
            },
            _ => unreached(),
        }
    }
}

} // verus!
