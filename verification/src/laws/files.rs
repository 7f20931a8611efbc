//! Opening files and planning positioned, exact and appending operations.
use vstd::prelude::*;
use crate::fs::{
    check_path, complete_open, complete_read, complete_write, disjoint, lemma_access_mode_is_kept,
    lemma_cloexec_is_always_set, lemma_flags_reflect_options, lemma_linux_flags_are_disjoint, File,
    FileOp, OpenAbi, OpenOptions, OpenRequest, OpenView,
};
use crate::io::{Filled, IoError, IoErrorKind, Transfer, TransferStep};

verus! {

/// Options can be used exactly if they ask for some access, and for write or append
/// access if they create or truncate.
pub proof fn lemma_options_need_matching_access(
    options: OpenOptions,
    abi: OpenAbi,
    given: Result<(i32, u32), IoError>,
    native: Result<(i32, u32), IoError>,
)
    requires
        call_ensures(OpenOptions::flags_with, (&options, &abi), given),
        call_ensures(OpenOptions::flags, (&options,), native),
    ensures
        ({
            let writes = options@.write || options@.append;
            let changes = options@.truncate || options@.create || options@.create_new;
            &&& given is Ok <==> (options@.read || writes) && (changes ==> writes)
            &&& native is Ok <==> given is Ok
            &&& given matches Err(error) ==> error is Simple && error->kind
                == IoErrorKind::InvalidInput && native == Err::<(i32, u32), IoError>(error)
            &&& given is Err && !options@.read && !writes ==> given->Err_0->message
                == "an access mode is required"
            &&& given is Err && options@.read ==> given->Err_0->message
                == "truncate and create options require write or append access"
            &&& given is Ok ==> (given->Ok_0).1 == options@.mode && (native->Ok_0).1
                == options@.mode
        }),
{
}

/// The access mode grants exactly what the options ask for. Append access is enough
/// to make a file writable, and custom flags change nothing of it.
pub proof fn lemma_access_mode_is_what_was_asked(
    options: OpenOptions,
    abi: OpenAbi,
    given: Result<(i32, u32), IoError>,
)
    requires
        abi.wf(),
        call_ensures(OpenOptions::flags_with, (&options, &abi), given),
        given is Ok,
    ensures
        ({
            let mode = (given->Ok_0).0 & abi.access_mask;
            let writes = options@.write || options@.append;
            &&& options@.read && writes ==> mode == abi.read_write
            &&& options@.read && !writes ==> mode == abi.read_only
            &&& !options@.read ==> mode == abi.write_only
        }),
{
    lemma_access_mode_is_kept(options@, abi);
}

/// On Linux the two lowest bits of the flags are the access mode: two for reading
/// and writing or appending, one for either of these alone, zero for reading alone.
pub proof fn lemma_linux_access_mode_is_what_was_asked(
    options: OpenOptions,
    native: Result<(i32, u32), IoError>,
    path: &[u8],
    request: Result<OpenRequest, IoError>,
)
    requires
        call_ensures(OpenOptions::flags, (&options,), native),
        native is Ok,
        call_ensures(OpenOptions::open, (&options, path), request),
    ensures
        ({
            let mode = (native->Ok_0).0 & 3;
            let writes = options@.write || options@.append;
            &&& mode == (if options@.read && writes {
                2i32
            } else if options@.read {
                0i32
            } else {
                1i32
            })
            &&& request is Ok ==> request->Ok_0.flags & 3 == mode && request->Ok_0.mode
                == options@.mode && request->Ok_0.file.append == options@.append
        }),
        request is Ok <==> forall|i: int| 0 <= i < path@.len() ==> #[trigger] path@[i] != 0,
        request matches Err(error) ==> error is Simple && error->kind == IoErrorKind::InvalidInput,
{
    lemma_two_lowest_bits(options@, (native->Ok_0).0);
    if request is Ok {
        lemma_two_lowest_bits(options@, request->Ok_0.flags);
    }
}

/// The two lowest bits of flags that some Linux layout gives.
proof fn lemma_two_lowest_bits(options: OpenView, flags: i32)
    requires
        exists|abi: OpenAbi| #[trigger] abi.is_linux() && flags == options.flags(abi),
    ensures
        flags & 3 == (if options.read && (options.write || options.append) {
            2i32
        } else if options.read {
            0i32
        } else {
            1i32
        }),
{
    let abi = choose|abi: OpenAbi| #[trigger] abi.is_linux() && flags == options.flags(abi);
    lemma_linux_flags_are_disjoint(abi);
    lemma_access_mode_is_kept(options, abi);
    let mask = abi.access_mask;
    let mode = flags & mask;
    assert(flags & 3 == mode) by (bit_vector)
        requires
            mode == flags & mask,
            mask == 0x3 || mask == 0x20_0003,
            mode == 0 || mode == 1 || mode == 2,
    ;
}

/// A file is opened to append, to be truncated, to be created or to be new exactly
/// if the options ask for it; a new file is created and never truncated. It is
/// always closed on execution of another program, and custom flags come along.
pub proof fn lemma_each_flag_is_set_as_asked(
    options: OpenOptions,
    abi: OpenAbi,
    given: Result<(i32, u32), IoError>,
)
    requires
        abi.wf(),
        disjoint(options@.custom_flags, abi.append),
        disjoint(options@.custom_flags, abi.truncate),
        disjoint(options@.custom_flags, abi.create),
        disjoint(options@.custom_flags, abi.exclusive),
        call_ensures(OpenOptions::flags_with, (&options, &abi), given),
        given is Ok,
    ensures
        ({
            let flags = (given->Ok_0).0;
            let custom = options@.custom_flags & !abi.access_mask;
            &&& flags & abi.append != 0 <==> options@.append
            &&& flags & abi.truncate != 0 <==> options@.truncate && !options@.create_new
            &&& flags & abi.create != 0 <==> options@.create || options@.create_new
            &&& flags & abi.exclusive != 0 <==> options@.create_new
            &&& flags & abi.cloexec == abi.cloexec
            &&& flags & custom == custom
        }),
{
    lemma_flags_reflect_options(options@, abi);
    lemma_cloexec_is_always_set(options@, abi);
    let custom = options@.custom_flags & !abi.access_mask;
    let flags = (given->Ok_0).0;
    let others = crate::fs::with_flag(
        crate::fs::with_flag(
            crate::fs::with_flag(
                crate::fs::with_flag(
                    options@.access(abi) | abi.cloexec,
                    options@.append,
                    abi.append,
                ),
                options@.truncate && !options@.create_new,
                abi.truncate,
            ),
            options@.create || options@.create_new,
            abi.create,
        ),
        options@.create_new,
        abi.exclusive,
    );
    assert(flags == others | custom);
    assert((others | custom) & custom == custom) by (bit_vector);
}

/// Each option is the last value given for it, and no option disturbs another.
pub proof fn lemma_options_are_independent(
    fresh: OpenOptions,
    this: &mut OpenOptions,
    read: &mut OpenOptions,
    write: &mut OpenOptions,
    append: &mut OpenOptions,
    truncate: &mut OpenOptions,
    on: (bool, bool, bool, bool),
)
    requires
        call_ensures(OpenOptions::new, (), fresh) || call_ensures(
            <OpenOptions as Default>::default,
            (),
            fresh,
        ),
        *old(this) == fresh,
        call_ensures(OpenOptions::read, (this, on.0), read),
        call_ensures(OpenOptions::write, (read, on.1), write),
        call_ensures(OpenOptions::append, (write, on.2), append),
        call_ensures(OpenOptions::truncate, (append, on.3), truncate),
    ensures
        ({
            let set = old(truncate)@;
            &&& set.read == on.0
            &&& set.write == on.1
            &&& set.append == on.2
            &&& set.truncate == on.3
            &&& !set.create && !set.create_new
            &&& set.mode == 0o666
            &&& set.custom_flags == 0
        }),
        *final(this) == *final(truncate),
{
}

/// The same holds of the options for creation.
pub proof fn lemma_creation_options_are_independent(
    this: &mut OpenOptions,
    create: &mut OpenOptions,
    create_new: &mut OpenOptions,
    mode: &mut OpenOptions,
    custom: &mut OpenOptions,
    on: (bool, bool),
    bits: u32,
    flags: i32,
)
    requires
        call_ensures(OpenOptions::create, (this, on.0), create),
        call_ensures(OpenOptions::create_new, (create, on.1), create_new),
        call_ensures(OpenOptions::mode, (create_new, bits), mode),
        call_ensures(OpenOptions::custom_flags, (mode, flags), custom),
    ensures
        ({
            let set = old(custom)@;
            &&& set.create == on.0
            &&& set.create_new == on.1
            &&& set.mode == bits
            &&& set.custom_flags == flags
            &&& set.read == old(this)@.read
            &&& set.write == old(this)@.write
            &&& set.append == old(this)@.append
            &&& set.truncate == old(this)@.truncate
        }),
        *final(this) == *final(custom),
{
}

/// `open` reads, `create` writes to a file that it makes or empties, `create_new`
/// writes to one that must not exist; none of them appends.
pub proof fn lemma_shorthands_open_as_named(
    path: &[u8],
    opened: Result<OpenRequest, IoError>,
    created: Result<OpenRequest, IoError>,
    new: Result<OpenRequest, IoError>,
)
    requires
        call_ensures(File::open, (path,), opened),
        call_ensures(File::create, (path,), created),
        call_ensures(File::create_new, (path,), new),
    ensures
        ({
            let usable = forall|i: int| 0 <= i < path@.len() ==> #[trigger] path@[i] != 0;
            &&& opened is Ok <==> usable
            &&& created is Ok <==> usable
            &&& new is Ok <==> usable
        }),
        opened matches Ok(request) ==> request.flags & 3 == 0 && !request.file.append,
        created matches Ok(request) ==> request.flags & 3 == 1 && !request.file.append
            && request.mode == 0o666,
        new matches Ok(request) ==> request.flags & 3 == 1 && !request.file.append && request.mode
            == 0o666,
        opened matches Ok(request) ==> exists|abi: OpenAbi| #[trigger]
            abi.is_linux() && request.flags & abi.create == 0 && request.flags & abi.truncate == 0,
        created matches Ok(request) ==> exists|abi: OpenAbi| #[trigger]
            abi.is_linux() && request.flags & abi.create != 0 && request.flags & abi.truncate != 0
                && request.flags & abi.exclusive == 0,
        new matches Ok(request) ==> exists|abi: OpenAbi| #[trigger]
            abi.is_linux() && request.flags & abi.create != 0 && request.flags & abi.exclusive != 0
                && request.flags & abi.truncate == 0,
{
    let plain = crate::fs::default_options();
    if opened is Ok {
        lemma_plain_flags(OpenView { read: true, ..plain }, opened->Ok_0.flags);
    }
    if created is Ok {
        lemma_plain_flags(
            OpenView { write: true, create: true, truncate: true, ..plain },
            created->Ok_0.flags,
        );
    }
    if new is Ok {
        lemma_plain_flags(OpenView { write: true, create_new: true, ..plain }, new->Ok_0.flags);
    }
}

/// What the flags of options without custom flags hold.
proof fn lemma_plain_flags(options: OpenView, flags: i32)
    requires
        options.custom_flags == 0,
        exists|abi: OpenAbi| #[trigger] abi.is_linux() && flags == options.flags(abi),
    ensures
        flags & 3 == (if options.read && (options.write || options.append) {
            2i32
        } else if options.read {
            0i32
        } else {
            1i32
        }),
        exists|abi: OpenAbi| #[trigger]
            abi.is_linux() && (flags & abi.append != 0) == options.append && (flags & abi.truncate
                != 0) == (options.truncate && !options.create_new) && (flags & abi.create != 0) == (
            options.create || options.create_new) && (flags & abi.exclusive != 0)
                == options.create_new,
{
    lemma_two_lowest_bits(options, flags);
    let abi = choose|abi: OpenAbi| #[trigger] abi.is_linux() && flags == options.flags(abi);
    lemma_linux_flags_are_disjoint(abi);
    assert(forall|flag: i32| #[trigger] (0i32 & flag) == 0) by (bit_vector);
    lemma_flags_reflect_options(options, abi);
}

/// A path is refused exactly if it holds a NUL byte.
pub proof fn lemma_path_without_nul_is_accepted(path: &[u8], checked: Result<(), IoError>)
    requires
        call_ensures(check_path, (path,), checked),
    ensures
        checked is Ok <==> forall|i: int| 0 <= i < path@.len() ==> #[trigger] path@[i] != 0,
        checked matches Err(error) ==> error is Simple && error->kind == IoErrorKind::InvalidInput,
{
}

/// One operation moves the whole buffer at the given offset, and is refused exactly
/// if the buffer is more than the kernel takes at once, or the file's mode does not
/// fit: positioned writes are for files that do not append, appending for those
/// that do.
pub proof fn lemma_operations_fit_the_file(
    file: File,
    total: usize,
    offset: u64,
    read: Result<FileOp, IoError>,
    written: Result<FileOp, IoError>,
    appended: Result<FileOp, IoError>,
)
    requires
        call_ensures(File::read_at, (&file, total, offset), read),
        call_ensures(File::write_at, (&file, total, offset), written),
        call_ensures(File::append, (&file, total), appended),
    ensures
        read is Ok <==> total <= 0xffff_ffff,
        written is Ok <==> total <= 0xffff_ffff && !file.append,
        appended is Ok <==> total <= 0xffff_ffff && file.append,
        read matches Ok(op) ==> op.file_offset == offset && op.len == total,
        written matches Ok(op) ==> op.file_offset == offset && op.len == total,
        appended matches Ok(op) ==> op.file_offset == u64::MAX && op.len == total,
        read matches Err(error) ==> error is Simple && error->kind == IoErrorKind::InvalidInput,
        written matches Err(error) ==> error is Simple && error->kind == IoErrorKind::InvalidInput,
        appended matches Err(error) ==> error is Simple && error->kind == IoErrorKind::InvalidInput,
{
}

/// Reads and writes of a whole buffer begin at the given offset with nothing moved,
/// fail with an error of their own when they make no progress, and are refused at
/// once when the range of the file overflows.
pub proof fn lemma_whole_transfers_begin_at_the_offset(
    file: File,
    total: usize,
    offset: u64,
    read: Transfer,
    written: Result<Transfer, IoError>,
    first: TransferStep,
)
    requires
        call_ensures(File::read_exact_at, (&file, total, offset), read),
        call_ensures(File::write_all_at, (&file, total, offset), written),
        call_ensures(Transfer::next, (&read,), first),
    ensures
        read.offset == Some(offset) && read.total == total && read.moved == 0,
        read.stall is Simple && read.stall->kind == IoErrorKind::UnexpectedEof,
        written is Ok <==> !file.append,
        written matches Ok(transfer) ==> transfer.offset == Some(offset) && transfer.total == total
            && transfer.moved == 0 && transfer.stall is Simple && transfer.stall->kind
            == IoErrorKind::WriteZero,
        written matches Err(error) ==> error is Simple && error->kind == IoErrorKind::InvalidInput,
        total > 0 && offset + total - 1 > u64::MAX ==> first is Refused,
        total > 0 && total <= 0xffff_ffff && offset + total - 1 <= u64::MAX ==> first is Issue
            && first->file_offset == Some(offset) && first->buffer_offset == 0 && first->len
            == total,
        total == 0 ==> first is Finished,
{
}

/// An opened descriptor, and what was read or written, is what the kernel answered;
/// its errors are handed on with their numbers.
pub proof fn lemma_kernel_answers_are_handed_on(
    cqe: i32,
    remaining: usize,
    buffer_offset: usize,
    initialized: usize,
    opened: Result<i32, IoError>,
    read: Result<Filled, IoError>,
    written: Result<usize, IoError>,
)
    requires
        cqe > i32::MIN,
        buffer_offset + remaining <= usize::MAX,
        call_ensures(complete_open, (cqe,), opened),
        call_ensures(complete_read, (cqe, remaining, buffer_offset, initialized), read),
        call_ensures(complete_write, (cqe, remaining), written),
    ensures
        cqe >= 0 ==> opened == Ok::<i32, IoError>(cqe),
        cqe < 0 ==> opened is Err && opened->Err_0 is Os && opened->Err_0->0 == 0 - cqe
            && read is Err && read->Err_0 is Os && read->Err_0->0 == 0 - cqe && written is Err
            && written->Err_0 is Os && written->Err_0->0 == 0 - cqe,
        0 <= cqe <= remaining ==> read is Ok && read->Ok_0.count == cqe
            && read->Ok_0.initialized >= initialized && read->Ok_0.initialized >= buffer_offset
            + cqe && (read->Ok_0.initialized == initialized || read->Ok_0.initialized
            == buffer_offset + cqe) && written is Ok && written->Ok_0 == cqe,
        cqe > remaining ==> read is Err && read->Err_0 is Simple && read->Err_0->kind
            == IoErrorKind::InvalidData && written is Err && written->Err_0 is Simple
            && written->Err_0->kind == IoErrorKind::InvalidData,
{
}

/// A request has the flags and the mode of its options, and its file appends as they
/// say. The options are checked before the path.
pub proof fn lemma_request_has_the_flags_of_its_options(
    options: OpenOptions,
    abi: OpenAbi,
    path: &[u8],
    given: Result<(i32, u32), IoError>,
    checked: Result<(), IoError>,
    request: Result<OpenRequest, IoError>,
)
    requires
        call_ensures(OpenOptions::flags_with, (&options, &abi), given),
        call_ensures(check_path, (path,), checked),
        call_ensures(OpenOptions::open_with, (&options, &abi, path), request),
    ensures
        request is Ok <==> given is Ok && checked is Ok,
        request matches Ok(request) ==> (request.flags, request.mode) == given->Ok_0
            && request.file.append == options@.append,
        given matches Err(error) ==> request == Err::<OpenRequest, IoError>(error),
        given is Ok && checked is Err ==> request == Err::<OpenRequest, IoError>(checked->Err_0),
{
}

} // verus!
