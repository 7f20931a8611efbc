//! Completion-native positional file I/O with owned buffers.
//!
//! All ordinary file I/O is positioned and does not use or advance a shared file
//! cursor. Appending is available only to files opened in append mode.
use vstd::prelude::*;
use crate::io::{
    complete_drain, complete_fill, offset_error, operation_len, oversized_error, Filled, IoError,
    IoErrorKind, Transfer, TransferStep,
};

verus! {

/// Values of the open flags, which differ between architectures.
#[derive(Clone, Copy, Debug, PartialEq, Eq, Structural)]
pub struct OpenAbi {
    /// Access mode of reading only.
    pub read_only: i32,
    /// Access mode of writing only.
    pub write_only: i32,
    /// Access mode of reading and writing.
    pub read_write: i32,
    /// Mask of the access mode.
    pub access_mask: i32,
    /// Close on execution of another program.
    pub cloexec: i32,
    /// Write at the end of the file.
    pub append: i32,
    /// Truncate an existing file.
    pub truncate: i32,
    /// Create a missing file.
    pub create: i32,
    /// Fail if the file exists.
    pub exclusive: i32,
}

/// Two flags share no bit.
pub open spec fn disjoint(one: i32, other: i32) -> bool {
    one & other == 0
}

impl OpenAbi {
    /// The access modes lie inside the mask and the other flags outside, where
    /// each has bits of its own.
    pub open spec fn wf(self) -> bool {
        &&& self.read_only & self.access_mask == self.read_only
        &&& self.write_only & self.access_mask == self.write_only
        &&& self.read_write & self.access_mask == self.read_write
        &&& self.cloexec > 0 && self.append > 0 && self.truncate > 0 && self.create > 0
            && self.exclusive > 0
        &&& disjoint(self.cloexec, self.access_mask)
        &&& disjoint(self.append, self.access_mask)
        &&& disjoint(self.truncate, self.access_mask)
        &&& disjoint(self.create, self.access_mask)
        &&& disjoint(self.exclusive, self.access_mask)
        &&& disjoint(self.cloexec, self.append)
        &&& disjoint(self.cloexec, self.truncate)
        &&& disjoint(self.cloexec, self.create)
        &&& disjoint(self.cloexec, self.exclusive)
        &&& disjoint(self.append, self.truncate)
        &&& disjoint(self.append, self.create)
        &&& disjoint(self.append, self.exclusive)
        &&& disjoint(self.truncate, self.create)
        &&& disjoint(self.truncate, self.exclusive)
        &&& disjoint(self.create, self.exclusive)
    }

    /// Whether the flags other than the access modes have these values.
    pub open spec fn has_flags(
        self,
        append: i32,
        truncate: i32,
        create: i32,
        exclusive: i32,
        cloexec: i32,
    ) -> bool {
        &&& self.append == append
        &&& self.truncate == truncate
        &&& self.create == create
        &&& self.exclusive == exclusive
        &&& self.cloexec == cloexec
    }

    /// The values of the open flags on a Linux target.
    ///
    /// Most architectures share one layout; MIPS and SPARC have their own, and
    /// so has uClibc on x86-64. The mask of the access modes includes the search
    /// mode where the C library is musl.
    pub open spec fn is_linux(self) -> bool {
        &&& self.read_only == 0 && self.write_only == 1 && self.read_write == 2
        &&& self.access_mask == 0x3 || self.access_mask == 0x20_0003
        &&& {
            ||| self.has_flags(0x400, 0x200, 0x40, 0x80, 0x8_0000)
            ||| self.has_flags(0x8, 0x200, 0x100, 0x400, 0x8_0000)
            ||| self.has_flags(0x8, 0x400, 0x200, 0x800, 0x40_0000)
            ||| self.has_flags(0x400, 0x200, 100, 0x80, 0x8_0000)
        }
    }
}

/// On every Linux target the access modes lie inside their mask, and the other
/// flags outside, where each has bits of its own.
pub proof fn lemma_linux_flags_are_disjoint(abi: OpenAbi)
    requires
        abi.is_linux(),
    ensures
        abi.wf(),
{
    assert(forall|mask: i32| #[trigger] (0i32 & mask) == 0) by (bit_vector);
    assert(1i32 & 0x3 == 1 && 2i32 & 0x3 == 2 && 1i32 & 0x20_0003 == 1 && 2i32 & 0x20_0003 == 2)
        by (bit_vector);
    assert(0x400i32 & 0x3 == 0 && 0x200i32 & 0x3 == 0 && 0x40i32 & 0x3 == 0 && 0x80i32 & 0x3 == 0
        && 0x8_0000i32 & 0x3 == 0 && 0x8i32 & 0x3 == 0 && 0x100i32 & 0x3 == 0 && 0x800i32 & 0x3
        == 0 && 0x40_0000i32 & 0x3 == 0 && 100i32 & 0x3 == 0) by (bit_vector);
    assert(0x400i32 & 0x20_0003 == 0 && 0x200i32 & 0x20_0003 == 0 && 0x40i32 & 0x20_0003 == 0
        && 0x80i32 & 0x20_0003 == 0 && 0x8_0000i32 & 0x20_0003 == 0 && 0x8i32 & 0x20_0003 == 0
        && 0x100i32 & 0x20_0003 == 0 && 0x800i32 & 0x20_0003 == 0 && 0x40_0000i32 & 0x20_0003 == 0
        && 100i32 & 0x20_0003 == 0) by (bit_vector);
    let (cloexec, append, truncate) = (abi.cloexec, abi.append, abi.truncate);
    let (create, exclusive) = (abi.create, abi.exclusive);
    assert(cloexec & append == 0 && cloexec & truncate == 0 && cloexec & create == 0 && cloexec
        & exclusive == 0 && append & truncate == 0 && append & create == 0 && append & exclusive
        == 0 && truncate & create == 0 && truncate & exclusive == 0 && create & exclusive == 0)
        by (bit_vector)
        requires
            (append == 0x400 && truncate == 0x200 && create == 0x40 && exclusive == 0x80 && cloexec
                == 0x8_0000) || (append == 0x8 && truncate == 0x200 && create == 0x100 && exclusive
                == 0x400 && cloexec == 0x8_0000) || (append == 0x8 && truncate == 0x400 && create
                == 0x200 && exclusive == 0x800 && cloexec == 0x40_0000) || (append == 0x400
                && truncate == 0x200 && create == 100 && exclusive == 0x80 && cloexec == 0x8_0000),
    ;
}

/// The open flags of `libc` on a Linux target: `O_RDONLY`, `O_WRONLY` and
/// `O_RDWR` are 0, 1 and 2, covered by `O_ACCMODE`; `O_APPEND`, `O_TRUNC`,
/// `O_CREAT`, `O_EXCL` and `O_CLOEXEC` have one of the four sets of values that
/// occur. Which of them applies depends on the target and is left open.
#[verifier::external_body]
fn open_abi() -> (abi: OpenAbi)
    ensures
        abi.is_linux(),
{
    OpenAbi {
        read_only: libc::O_RDONLY,
        write_only: libc::O_WRONLY,
        read_write: libc::O_RDWR,
        access_mask: libc::O_ACCMODE,
        cloexec: libc::O_CLOEXEC,
        append: libc::O_APPEND,
        truncate: libc::O_TRUNC,
        create: libc::O_CREAT,
        exclusive: libc::O_EXCL,
    }
}

/// Configures file access, creation behavior, Unix mode, and custom flags.
///
/// At least one of read, write, or append must be enabled before opening.
/// `O_CLOEXEC` is always applied and cannot be disabled by custom flags.
#[derive(Clone, Copy, Debug, PartialEq, Eq, Structural)]
pub struct OpenOptions {
    read: bool,
    write: bool,
    append: bool,
    truncate: bool,
    create: bool,
    create_new: bool,
    mode: u32,
    custom_flags: i32,
}

/// The settings of [`OpenOptions`].
#[verifier::ext_equal]
pub struct OpenView {
    pub read: bool,
    pub write: bool,
    pub append: bool,
    pub truncate: bool,
    pub create: bool,
    pub create_new: bool,
    pub mode: u32,
    pub custom_flags: i32,
}

/// No access mode enabled, and creation mode `0o666`.
pub open spec fn default_options() -> OpenView {
    OpenView {
        read: false,
        write: false,
        append: false,
        truncate: false,
        create: false,
        create_new: false,
        mode: 0o666,
        custom_flags: 0,
    }
}

/// Sets `flag` when `on` holds.
pub open spec fn with_flag(flags: i32, on: bool, flag: i32) -> i32 {
    if on {
        flags | flag
    } else {
        flags
    }
}

impl OpenView {
    /// Whether any write access is enabled.
    pub open spec fn writable(self) -> bool {
        self.write || self.append
    }

    /// Why these settings cannot be used.
    pub open spec fn problem(self) -> Option<IoError> {
        if !self.read && !self.writable() {
            Some(
                IoError::Simple {
                    kind: IoErrorKind::InvalidInput,
                    message: "an access mode is required",
                },
            )
        } else if (self.truncate || self.create || self.create_new) && !self.writable() {
            Some(
                IoError::Simple {
                    kind: IoErrorKind::InvalidInput,
                    message: "truncate and create options require write or append access",
                },
            )
        } else {
            None
        }
    }

    /// Why `path` cannot be opened with these settings.
    pub open spec fn open_problem(self, path: Seq<u8>) -> Option<IoError> {
        if self.problem() is Some {
            self.problem()
        } else if has_nul(path) {
            Some(nul_error())
        } else {
            None
        }
    }

    /// The access mode of these settings.
    pub open spec fn access(self, abi: OpenAbi) -> i32 {
        if self.read && self.writable() {
            abi.read_write
        } else if self.read {
            abi.read_only
        } else {
            abi.write_only
        }
    }

    /// The open flags of these settings.
    pub open spec fn flags(self, abi: OpenAbi) -> i32 {
        let flags = self.access(abi) | abi.cloexec;
        let flags = with_flag(flags, self.append, abi.append);
        let flags = with_flag(flags, self.truncate && !self.create_new, abi.truncate);
        let flags = with_flag(flags, self.create || self.create_new, abi.create);
        let flags = with_flag(flags, self.create_new, abi.exclusive);
        flags | (self.custom_flags & !abi.access_mask)
    }
}

impl View for OpenOptions {
    type V = OpenView;

    closed spec fn view(&self) -> OpenView {
        OpenView {
            read: self.read,
            write: self.write,
            append: self.append,
            truncate: self.truncate,
            create: self.create,
            create_new: self.create_new,
            mode: self.mode,
            custom_flags: self.custom_flags,
        }
    }
}

impl OpenOptions {
    /// Creates an option set with no access mode enabled.
    ///
    /// The creation mode defaults to `0o666`; all access and creation flags
    /// default to false.
    pub fn new() -> (options: Self)
        ensures
            options@ == default_options(),
    {
        OpenOptions {
            read: false,
            write: false,
            append: false,
            truncate: false,
            create: false,
            create_new: false,
            mode: 0o666,
            custom_flags: 0,
        }
    }

    /// Enables or disables read access.
    pub fn read(&mut self, read: bool) -> (options: &mut Self)
        ensures
            options@ == (OpenView { read, ..old(self)@ }),
            *final(self) == *final(options),
    {
        self.read = read;
        self
    }

    /// Enables or disables ordinary write access.
    pub fn write(&mut self, write: bool) -> (options: &mut Self)
        ensures
            options@ == (OpenView { write, ..old(self)@ }),
            *final(self) == *final(options),
    {
        self.write = write;
        self
    }

    /// Enables or disables append access.
    ///
    /// Append counts as write access.
    pub fn append(&mut self, append: bool) -> (options: &mut Self)
        ensures
            options@ == (OpenView { append, ..old(self)@ }),
            *final(self) == *final(options),
    {
        self.append = append;
        self
    }

    /// Enables or disables truncation of an existing file.
    ///
    /// It is ignored when [`OpenOptions::create_new`] is enabled.
    pub fn truncate(&mut self, truncate: bool) -> (options: &mut Self)
        ensures
            options@ == (OpenView { truncate, ..old(self)@ }),
            *final(self) == *final(options),
    {
        self.truncate = truncate;
        self
    }

    /// Enables or disables creation when the path is absent.
    pub fn create(&mut self, create: bool) -> (options: &mut Self)
        ensures
            options@ == (OpenView { create, ..old(self)@ }),
            *final(self) == *final(options),
    {
        self.create = create;
        self
    }

    /// Enables or disables exclusive creation.
    pub fn create_new(&mut self, create_new: bool) -> (options: &mut Self)
        ensures
            options@ == (OpenView { create_new, ..old(self)@ }),
            *final(self) == *final(options),
    {
        self.create_new = create_new;
        self
    }

    /// Sets the Unix permission bits used for creation.
    pub fn mode(&mut self, mode: u32) -> (options: &mut Self)
        ensures
            options@ == (OpenView { mode, ..old(self)@ }),
            *final(self) == *final(options),
    {
        self.mode = mode;
        self
    }

    /// Sets additional Unix open flags.
    pub fn custom_flags(&mut self, custom_flags: i32) -> (options: &mut Self)
        ensures
            options@ == (OpenView { custom_flags, ..old(self)@ }),
            *final(self) == *final(options),
    {
        self.custom_flags = custom_flags;
        self
    }

    /// Validates access/creation combinations and constructs open flags from the
    /// given flag values, together with the creation mode.
    pub fn flags_with(&self, abi: &OpenAbi) -> (result: Result<(i32, u32), IoError>)
        ensures
            result == (match self@.problem() {
                Some(error) => Err::<(i32, u32), IoError>(error),
                None => Ok((self@.flags(*abi), self@.mode)),
            }),
    {
        if !self.read && !self.write && !self.append {
            return Err(
                IoError::Simple {
                    kind: IoErrorKind::InvalidInput,
                    message: "an access mode is required",
                },
            );
        }
        if (self.truncate || self.create || self.create_new) && !self.write && !self.append {
            return Err(
                IoError::Simple {
                    kind: IoErrorKind::InvalidInput,
                    message: "truncate and create options require write or append access",
                },
            );
        }
        let writable = self.write || self.append;
        let access: i32 = if self.read && writable {
            abi.read_write
        } else if self.read {
            abi.read_only
        } else {
            abi.write_only
        };
        let mut flags: i32 = access | abi.cloexec;
        if self.append {
            flags = flags | abi.append;
        }
        if self.truncate && !self.create_new {
            flags = flags | abi.truncate;
        }
        if self.create || self.create_new {
            flags = flags | abi.create;
        }
        if self.create_new {
            flags = flags | abi.exclusive;
        }
        flags = flags | (self.custom_flags & !abi.access_mask);
        Ok((flags, self.mode))
    }

    /// Validates access/creation combinations and constructs the open flags of
    /// this platform, together with the creation mode.
    pub fn flags(&self) -> (result: Result<(i32, u32), IoError>)
        ensures
            match result {
                Ok((flags, mode)) => {
                    &&& self@.problem() is None
                    &&& mode == self@.mode
                    &&& exists|abi: OpenAbi| #[trigger]
                        abi.is_linux() && flags == self@.flags(abi)
                },
                Err(error) => self@.problem() == Some(error),
            },
    {
        let abi = open_abi();
        self.flags_with(&abi)
    }

    /// Plans opening `path` with these options and the given flag values.
    ///
    /// The options are checked before the path.
    pub fn open_with(&self, abi: &OpenAbi, path: &[u8]) -> (request: Result<OpenRequest, IoError>)
        ensures
            request == (match self@.open_problem(path@) {
                Some(error) => Err::<OpenRequest, IoError>(error),
                None => Ok(
                    OpenRequest {
                        flags: self@.flags(*abi),
                        mode: self@.mode,
                        file: File { append: self@.append },
                    },
                ),
            }),
    {
        match self.flags_with(abi) {
            Ok((flags, mode)) => match check_path(path) {
                Ok(_) => Ok(OpenRequest { flags, mode, file: File { append: self.append } }),
                Err(error) => Err(error),
            },
            Err(error) => Err(error),
        }
    }

    /// Plans opening `path` with these options on this platform.
    pub fn open(&self, path: &[u8]) -> (request: Result<OpenRequest, IoError>)
        ensures
            is_request(self@, path@, request),
    {
        let abi = open_abi();
        self.open_with(&abi, path)
    }
}

/// A validated open operation.
#[derive(Clone, Copy, Debug, PartialEq, Eq, Structural)]
pub struct OpenRequest {
    /// Open flags.
    pub flags: i32,
    /// Unix permission bits used for creation.
    pub mode: u32,
    /// The file that a successful open results in.
    pub file: File,
}

/// The outcome of planning to open `path` with `options` on a Linux platform.
pub open spec fn is_request(
    options: OpenView,
    path: Seq<u8>,
    request: Result<OpenRequest, IoError>,
) -> bool {
    match request {
        Ok(request) => {
            &&& options.open_problem(path) is None
            &&& request.mode == options.mode
            &&& request.file.append == options.append
            &&& exists|abi: OpenAbi| #[trigger]
                abi.is_linux() && request.flags == options.flags(abi)
        },
        Err(error) => options.open_problem(path) == Some(error),
    }
}

impl Default for OpenOptions {
    /// An option set with no access mode enabled.
    fn default() -> (options: Self)
        ensures
            options@ == default_options(),
    {
        OpenOptions::new()
    }
}

/// `flag` when `on` holds, no bits otherwise.
spec fn chosen(on: bool, flag: i32) -> i32 {
    if on {
        flag
    } else {
        0
    }
}

/// Custom flags cannot change the access mode.
pub proof fn lemma_access_mode_is_kept(options: OpenView, abi: OpenAbi)
    requires
        abi.wf(),
    ensures
        options.flags(abi) & abi.access_mask == options.access(abi),
{
    let access = options.access(abi);
    let mask = abi.access_mask;
    let cloexec = abi.cloexec;
    let append = chosen(options.append, abi.append);
    let truncate = chosen(options.truncate && !options.create_new, abi.truncate);
    let create = chosen(options.create || options.create_new, abi.create);
    let exclusive = chosen(options.create_new, abi.exclusive);
    let custom = options.custom_flags;
    assert(forall|x: i32| #[trigger] (x | 0) == x) by (bit_vector);
    assert(0i32 & mask == 0) by (bit_vector);
    assert(options.flags(abi) == (((((access | cloexec) | append) | truncate) | create) | exclusive)
        | (custom & !mask));
    assert(((((((access | cloexec) | append) | truncate) | create) | exclusive) | (custom & !mask))
        & mask == access) by (bit_vector)
        requires
            access & mask == access,
            cloexec & mask == 0,
            append & mask == 0,
            truncate & mask == 0,
            create & mask == 0,
            exclusive & mask == 0,
    ;
}

/// Each flag that custom flags leave alone is set exactly when its option asks for
/// it; exclusive creation creates and never truncates.
pub proof fn lemma_flags_reflect_options(options: OpenView, abi: OpenAbi)
    requires
        abi.wf(),
        disjoint(options.custom_flags, abi.append),
        disjoint(options.custom_flags, abi.truncate),
        disjoint(options.custom_flags, abi.create),
        disjoint(options.custom_flags, abi.exclusive),
    ensures
        (options.flags(abi) & abi.append != 0) == options.append,
        (options.flags(abi) & abi.truncate != 0) == (options.truncate && !options.create_new),
        (options.flags(abi) & abi.create != 0) == (options.create || options.create_new),
        (options.flags(abi) & abi.exclusive != 0) == options.create_new,
{
    let mask = abi.access_mask;
    let access = options.access(abi);
    let (ca, ap, tr, cr, ex) = (
        abi.cloexec,
        abi.append,
        abi.truncate,
        abi.create,
        abi.exclusive,
    );
    let want_append = options.append;
    let want_truncate = options.truncate && !options.create_new;
    let want_create = options.create || options.create_new;
    let want_exclusive = options.create_new;
    let a = chosen(want_append, ap);
    let t = chosen(want_truncate, tr);
    let c = chosen(want_create, cr);
    let e = chosen(want_exclusive, ex);
    let flags = options.flags(abi);
    assert(forall|x: i32| #[trigger] (x | 0) == x) by (bit_vector);
    let custom = options.custom_flags;
    let rest = custom & !mask;
    assert(flags == (((((access | ca) | a) | t) | c) | e) | rest);
    assert((flags & ap == a) && (flags & tr == t) && (flags & cr == c) && (flags & ex == e))
        by (bit_vector)
        requires
            flags == (((((access | ca) | a) | t) | c) | e) | rest,
            rest == custom & !mask,
            custom & ap == 0,
            custom & tr == 0,
            custom & cr == 0,
            custom & ex == 0,
            a == ap || a == 0,
            t == tr || t == 0,
            c == cr || c == 0,
            e == ex || e == 0,
            access & mask == access,
            ca & mask == 0,
            ap & mask == 0,
            tr & mask == 0,
            cr & mask == 0,
            ex & mask == 0,
            ca & ap == 0,
            ca & tr == 0,
            ca & cr == 0,
            ca & ex == 0,
            ap & tr == 0,
            ap & cr == 0,
            ap & ex == 0,
            tr & cr == 0,
            tr & ex == 0,
            cr & ex == 0,
    ;
}

/// Files are always opened to be closed on execution of another program.
pub proof fn lemma_cloexec_is_always_set(options: OpenView, abi: OpenAbi)
    ensures
        options.flags(abi) & abi.cloexec == abi.cloexec,
{
    let access = options.access(abi);
    let cloexec = abi.cloexec;
    let append = chosen(options.append, abi.append);
    let truncate = chosen(options.truncate && !options.create_new, abi.truncate);
    let create = chosen(options.create || options.create_new, abi.create);
    let exclusive = chosen(options.create_new, abi.exclusive);
    let custom = options.custom_flags & !abi.access_mask;
    assert(forall|x: i32| #[trigger] (x | 0) == x) by (bit_vector);
    assert(options.flags(abi) == (((((access | cloexec) | append) | truncate) | create) | exclusive)
        | custom);
    assert(((((((access | cloexec) | append) | truncate) | create) | exclusive) | custom) & cloexec
        == cloexec) by (bit_vector);
}

/// A path with a NUL byte cannot be passed to the kernel.
pub open spec fn has_nul(path: Seq<u8>) -> bool {
    exists|i: int| 0 <= i < path.len() && #[trigger] path[i] == 0
}

/// The error of opening such a path.
pub open spec fn nul_error() -> IoError {
    IoError::Simple {
        kind: IoErrorKind::InvalidInput,
        message: "file path contains an interior NUL byte",
    }
}

/// Rejects a path that contains a NUL byte.
pub fn check_path(path: &[u8]) -> (result: Result<(), IoError>)
    ensures
        result == (if has_nul(path@) {
            Err::<(), IoError>(nul_error())
        } else {
            Ok(())
        }),
{
    let mut i: usize = 0;
    while i < path.len()
        invariant
            i <= path@.len(),
            forall|j: int| 0 <= j < i ==> path@[j] != 0,
        decreases path.len() - i,
    {
        if path[i] == 0 {
            assert(path@[i as int] == 0);
            return Err(
                IoError::Simple {
                    kind: IoErrorKind::InvalidInput,
                    message: "file path contains an interior NUL byte",
                },
            );
        }
        i = i + 1;
    }
    Ok(())
}

/// Converts the completion of an open operation into a descriptor.
pub fn complete_open(cqe: i32) -> (opened: Result<i32, IoError>)
    requires
        cqe > i32::MIN,
    ensures
        opened == (if cqe < 0 {
            Err::<i32, IoError>(IoError::Os((-cqe) as i32))
        } else {
            Ok(cqe)
        }),
{
    if cqe < 0 {
        Err(IoError::Os(-cqe))
    } else {
        Ok(cqe)
    }
}

/// Converts the completion of a read.
pub fn complete_read(cqe: i32, remaining: usize, buffer_offset: usize, initialized: usize) -> (filled:
    Result<Filled, IoError>)
    requires
        cqe > i32::MIN,
        buffer_offset + remaining <= usize::MAX,
    ensures
        filled == crate::io::filled(
            cqe,
            remaining,
            buffer_offset,
            initialized,
            "kernel returned an oversized read",
        ),
{
    complete_fill(cqe, remaining, buffer_offset, initialized, "kernel returned an oversized read")
}

/// Converts the completion of a write.
pub fn complete_write(cqe: i32, remaining: usize) -> (count: Result<usize, IoError>)
    requires
        cqe > i32::MIN,
    ensures
        count == crate::io::drained(cqe, remaining, "kernel returned an oversized write"),
{
    complete_drain(cqe, remaining, "kernel returned an oversized write")
}

/// An open file, as far as its operations depend on how it was opened.
#[derive(Clone, Copy, Debug, PartialEq, Eq, Structural)]
pub struct File {
    /// Whether the file was opened in append mode.
    pub append: bool,
}

/// One operation to issue on a file.
#[derive(Clone, Copy, Debug, PartialEq, Eq, Structural)]
pub struct FileOp {
    /// Absolute file offset; the largest one leaves the choice to the kernel.
    pub file_offset: u64,
    /// Number of bytes to move.
    pub len: u32,
}

/// The error of a positioned write to a file in append mode.
pub open spec fn positioned_write_error() -> IoError {
    IoError::Simple {
        kind: IoErrorKind::InvalidInput,
        message: "positioned writes are not allowed on append-mode files",
    }
}

/// The error of appending to a file that is not in append mode.
pub open spec fn append_mode_error() -> IoError {
    IoError::Simple {
        kind: IoErrorKind::InvalidInput,
        message: "append requires a file opened in append mode",
    }
}

/// One operation on the first `total` bytes of a buffer.
pub open spec fn file_op(total: usize, file_offset: u64) -> Result<FileOp, IoError> {
    if total > u32::MAX {
        Err(oversized_error())
    } else {
        Ok(FileOp { file_offset, len: total as u32 })
    }
}

impl File {
    /// Plans opening an existing file for reading.
    pub fn open(path: &[u8]) -> (request: Result<OpenRequest, IoError>)
        ensures
            is_request(OpenView { read: true, ..default_options() }, path@, request),
    {
        let mut options = OpenOptions::new();
        options.read(true);
        options.open(path)
    }

    /// Plans opening a file for writing, creating or truncating it.
    pub fn create(path: &[u8]) -> (request: Result<OpenRequest, IoError>)
        ensures
            is_request(
                OpenView { write: true, create: true, truncate: true, ..default_options() },
                path@,
                request,
            ),
    {
        let mut options = OpenOptions::new();
        options.write(true).create(true).truncate(true);
        options.open(path)
    }

    /// Plans creating a new file for writing that must not exist yet.
    pub fn create_new(path: &[u8]) -> (request: Result<OpenRequest, IoError>)
        ensures
            is_request(
                OpenView { write: true, create_new: true, ..default_options() },
                path@,
                request,
            ),
    {
        let mut options = OpenOptions::new();
        options.write(true).create_new(true);
        options.open(path)
    }

    /// Plans one read into a buffer of `total` bytes.
    pub fn read_at(&self, total: usize, offset: u64) -> (op: Result<FileOp, IoError>)
        ensures
            op == file_op(total, offset),
    {
        match operation_len(total, 0) {
            Ok(len) => Ok(FileOp { file_offset: offset, len }),
            Err(error) => Err(error),
        }
    }

    /// Plans reads that fill a buffer of `total` bytes.
    ///
    /// A range of file offsets that overflows is refused at the first step.
    pub fn read_exact_at(&self, total: usize, offset: u64) -> (transfer: Transfer)
        ensures
            transfer.wf(),
            total > 0 && offset + total - 1 > u64::MAX ==> transfer.step() == TransferStep::Refused(
                offset_error(),
            ),
            transfer == (Transfer {
                offset: Some(offset),
                total,
                moved: 0,
                stall: IoError::Simple {
                    kind: IoErrorKind::UnexpectedEof,
                    message: "failed to fill whole buffer",
                },
            }),
    {
        Transfer::new(
            Some(offset),
            total,
            IoError::Simple {
                kind: IoErrorKind::UnexpectedEof,
                message: "failed to fill whole buffer",
            },
        )
    }

    /// Plans one write of the `total` initialized bytes of a buffer.
    pub fn write_at(&self, total: usize, offset: u64) -> (op: Result<FileOp, IoError>)
        ensures
            op == (if self.append {
                Err::<FileOp, IoError>(positioned_write_error())
            } else {
                file_op(total, offset)
            }),
    {
        if self.append {
            return Err(
                IoError::Simple {
                    kind: IoErrorKind::InvalidInput,
                    message: "positioned writes are not allowed on append-mode files",
                },
            );
        }
        match operation_len(total, 0) {
            Ok(len) => Ok(FileOp { file_offset: offset, len }),
            Err(error) => Err(error),
        }
    }

    /// Plans writes of all `total` initialized bytes of a buffer.
    ///
    /// A range of file offsets that overflows is refused at the first step.
    pub fn write_all_at(&self, total: usize, offset: u64) -> (transfer: Result<Transfer, IoError>)
        ensures
            transfer is Ok && total > 0 && offset + total - 1 > u64::MAX ==> transfer->Ok_0.step()
                == TransferStep::Refused(offset_error()),
            transfer == (if self.append {
                Err::<Transfer, IoError>(positioned_write_error())
            } else {
                Ok(
                    Transfer {
                        offset: Some(offset),
                        total,
                        moved: 0,
                        stall: IoError::Simple {
                            kind: IoErrorKind::WriteZero,
                            message: "failed to write buffer",
                        },
                    },
                )
            }),
    {
        if self.append {
            return Err(
                IoError::Simple {
                    kind: IoErrorKind::InvalidInput,
                    message: "positioned writes are not allowed on append-mode files",
                },
            );
        }
        Ok(
            Transfer::new(
                Some(offset),
                total,
                IoError::Simple {
                    kind: IoErrorKind::WriteZero,
                    message: "failed to write buffer",
                },
            ),
        )
    }

    /// Plans one append of the `total` initialized bytes of a buffer.
    ///
    /// The kernel chooses the position.
    pub fn append(&self, total: usize) -> (op: Result<FileOp, IoError>)
        ensures
            op == (if self.append {
                file_op(total, u64::MAX)
            } else {
                Err::<FileOp, IoError>(append_mode_error())
            }),
    {
        if !self.append {
            return Err(
                IoError::Simple {
                    kind: IoErrorKind::InvalidInput,
                    message: "append requires a file opened in append mode",
                },
            );
        }
        match operation_len(total, 0) {
            Ok(len) => Ok(FileOp { file_offset: u64::MAX, len }),
            Err(error) => Err(error),
        }
    }
}

} // verus!
