//! What a filesystem driver implements and how it meets the kernel: the
//! [`FileSystem`] capability, the [`SuperBlock`] handle that a driver gets
//! while it fills a superblock, and the [`Registration`] that stands for a
//! filesystem type the kernel knows.
//!
//! The kernel's own records never appear here. A record is described by the
//! plain values that this layer puts into it or reads from it; the code that
//! sits on the kernel's calling convention copies them in and out.

use core::marker::PhantomData;
use vstd::prelude::*;
use vstd::string::StringSliceAdditionalSpecFns;

use crate::error::Error;
use crate::error::KernelResult;
use crate::error::EINVAL;

verus! {

/// The filesystem needs a block device.
pub const FS_REQUIRES_DEV: i32 = 1;

/// The mount data is binary, not text.
pub const FS_BINARY_MOUNTDATA: i32 = 2;

/// The filesystem has a subtype.
pub const FS_HAS_SUBTYPE: i32 = 4;

/// The root of a user namespace may mount the filesystem.
pub const FS_USERNS_MOUNT: i32 = 8;

/// The filesystem moves the directory entry itself when a file is renamed.
pub const FS_RENAME_DOES_D_MOVE: i32 = 32768;

/// The bit of a flag in the kernel's word if the flag is set, no bit if not.
pub open spec fn flag_bit(set: bool, bit: i32) -> i32 {
    if set {
        bit
    } else {
        0
    }
}

/// The mount behaviour of a filesystem type: one switch for each flag the
/// kernel defines.
#[derive(Clone, Copy, Debug, PartialEq, Eq, Structural)]
pub struct FileSystemFlags {
    /// [`FS_REQUIRES_DEV`] is set.
    pub requires_dev: bool,
    /// [`FS_BINARY_MOUNTDATA`] is set.
    pub binary_mountdata: bool,
    /// [`FS_HAS_SUBTYPE`] is set.
    pub has_subtype: bool,
    /// [`FS_USERNS_MOUNT`] is set.
    pub userns_mount: bool,
    /// [`FS_RENAME_DOES_D_MOVE`] is set.
    pub rename_does_d_move: bool,
}

impl FileSystemFlags {
    /// The flags as the kernel's record holds them: the sum of the bits of the
    /// flags that are set. The bits differ, so the sum has exactly those bits.
    pub open spec fn spec_bits(self) -> i32 {
        (flag_bit(self.requires_dev, FS_REQUIRES_DEV) + flag_bit(
            self.binary_mountdata,
            FS_BINARY_MOUNTDATA,
        ) + flag_bit(self.has_subtype, FS_HAS_SUBTYPE) + flag_bit(
            self.userns_mount,
            FS_USERNS_MOUNT,
        ) + flag_bit(self.rename_does_d_move, FS_RENAME_DOES_D_MOVE)) as i32
    }

    /// The kernel's test of each flag, applied to the word that
    /// [`FileSystemFlags::bits`] returns, finds the flag exactly where it is
    /// set; and the word has no bit that is not a flag.
    pub proof fn lemma_bits_hold_each_flag(self)
        ensures
            (self.spec_bits() & FS_REQUIRES_DEV != 0) == self.requires_dev,
            (self.spec_bits() & FS_BINARY_MOUNTDATA != 0) == self.binary_mountdata,
            (self.spec_bits() & FS_HAS_SUBTYPE != 0) == self.has_subtype,
            (self.spec_bits() & FS_USERNS_MOUNT != 0) == self.userns_mount,
            (self.spec_bits() & FS_RENAME_DOES_D_MOVE != 0) == self.rename_does_d_move,
            self.spec_bits() & !(FS_REQUIRES_DEV | FS_BINARY_MOUNTDATA | FS_HAS_SUBTYPE
                | FS_USERNS_MOUNT | FS_RENAME_DOES_D_MOVE) == 0,
    {
        let a = flag_bit(self.requires_dev, FS_REQUIRES_DEV);
        let b = flag_bit(self.binary_mountdata, FS_BINARY_MOUNTDATA);
        let c = flag_bit(self.has_subtype, FS_HAS_SUBTYPE);
        let d = flag_bit(self.userns_mount, FS_USERNS_MOUNT);
        let e = flag_bit(self.rename_does_d_move, FS_RENAME_DOES_D_MOVE);
        let word = self.spec_bits();
        assert(word == a + b + c + d + e);
        assert({
            &&& word & 1i32 == a
            &&& word & 2i32 == b
            &&& word & 4i32 == c
            &&& word & 8i32 == d
            &&& word & 32768i32 == e
            &&& word & !(1i32 | 2i32 | 4i32 | 8i32 | 32768i32) == 0
        }) by (bit_vector)
            requires
                a == 0 || a == 1,
                b == 0 || b == 2,
                c == 0 || c == 4,
                d == 0 || d == 8,
                e == 0 || e == 32768,
                word == a + b + c + d + e,
        ;
    }

    /// Two sets of flags with the same word are the same set: the record
    /// loses nothing.
    pub proof fn lemma_bits_determine_flags(self, other: FileSystemFlags)
        requires
            self.spec_bits() == other.spec_bits(),
        ensures
            self == other,
    {
        self.lemma_bits_hold_each_flag();
        other.lemma_bits_hold_each_flag();
    }

    /// No flag set.
    pub fn empty() -> (flags: FileSystemFlags)
        ensures
            !flags.requires_dev,
            !flags.binary_mountdata,
            !flags.has_subtype,
            !flags.userns_mount,
            !flags.rename_does_d_move,
            flags.spec_bits() == 0,
    {
        FileSystemFlags {
            requires_dev: false,
            binary_mountdata: false,
            has_subtype: false,
            userns_mount: false,
            rename_does_d_move: false,
        }
    }

    /// The flags as the kernel's record holds them.
    #[verifier::when_used_as_spec(spec_bits)]
    pub fn bits(self) -> (bits: i32)
        ensures
            bits == self.spec_bits(),
    {
        let a: i32 = if self.requires_dev {
            FS_REQUIRES_DEV
        } else {
            0
        };
        let b: i32 = if self.binary_mountdata {
            FS_BINARY_MOUNTDATA
        } else {
            0
        };
        let c: i32 = if self.has_subtype {
            FS_HAS_SUBTYPE
        } else {
            0
        };
        let d: i32 = if self.userns_mount {
            FS_USERNS_MOUNT
        } else {
            0
        };
        let e: i32 = if self.rename_does_d_move {
            FS_RENAME_DOES_D_MOVE
        } else {
            0
        };
        assert((a | b | c | d | e) == a + b + c + d + e) by (bit_vector)
            requires
                a == 0 || a == 1,
                b == 0 || b == 2,
                c == 0 || c == 4,
                d == 0 || d == 8,
                e == 0 || e == 32768,
        ;
        a | b | c | d | e
    }
}

/// A driver's view of one superblock of the kernel, for the time of one
/// callback.
///
/// The handle borrows the slot in which the superblock keeps a driver's
/// private information, and nothing else. What it leaves in the slot stays
/// with the superblock when the callback returns.
///
/// Nobody frees what stays attached: the kernel does not know how to, and
/// calls no driver when it tears a superblock down. A driver that attaches
/// information takes it out again with [`SuperBlock::replace_fs_info`] before
/// the superblock goes away, or the information leaks.
pub struct SuperBlock<'a, I> {
    slot: &'a mut Option<Box<I>>,
}

/// What [`SuperBlock::replace_fs_info`] hands back, and what it leaves
/// attached, when `new_val` goes into a slot that holds `attached`: the
/// former occupant, and `new_val`.
pub open spec fn spec_replace_fs_info<I>(attached: Option<Box<I>>, new_val: Option<Box<I>>) -> (
    Option<Box<I>>,
    Option<Box<I>>,
) {
    (attached, new_val)
}

/// What [`SuperBlock::fs_info_as_ref`] shows of a slot that holds
/// `attached`.
pub open spec fn spec_fs_info_as_ref<I>(attached: Option<Box<I>>) -> Option<I> {
    match attached {
        Some(info) => Some(*info),
        None => None,
    }
}

impl<'a, I> View for SuperBlock<'a, I> {
    type V = Option<Box<I>>;

    /// The information that is attached to the superblock now.
    closed spec fn view(&self) -> Option<Box<I>> {
        *self.slot
    }
}

impl<'a, I> SuperBlock<'a, I> {
    /// The borrowed slot itself. Contracts use it to say that a handle keeps
    /// hold of the slot it was made for.
    pub closed spec fn slot(self) -> &'a mut Option<Box<I>> {
        self.slot
    }

    /// When a handle is used no more, the slot that it borrowed holds what the
    /// handle showed last.
    pub proof fn lemma_slot_keeps_last_view(self)
        requires
            has_resolved(self),
        ensures
            *final(self.slot()) == self@,
    {
    }

    /// Installing `a` and then `b` hands `a` back at the second call and
    /// leaves `b` attached, where it can be seen.
    pub proof fn lemma_replace_twice(attached: Option<Box<I>>, a: Box<I>, b: Box<I>)
        ensures
            ({
                let first = spec_replace_fs_info(attached, Some(a));
                let second = spec_replace_fs_info(first.1, Some(b));
                &&& first.0 == attached
                &&& second.0 == Some(a)
                &&& second.1 == Some(b)
                &&& spec_fs_info_as_ref(second.1) == Some(*b)
            }),
    {
    }

    /// A handle on the superblock whose slot is `slot`. It shows what the slot
    /// holds, and what it shows when it is dropped is what the slot holds
    /// from then on.
    pub fn new(slot: &'a mut Option<Box<I>>) -> (sb: SuperBlock<'a, I>)
        ensures
            sb@ == *old(slot),
            *final(slot) == *final(sb.slot()),
    {
        SuperBlock { slot }
    }

    /// Puts `new_val` into the slot and hands back what was there. Nothing is
    /// dropped: the caller decides what becomes of the former occupant.
    pub fn replace_fs_info(&mut self, new_val: Option<Box<I>>) -> (old_val: Option<Box<I>>)
        ensures
            (old_val, final(self)@) == spec_replace_fs_info(old(self)@, new_val),
            *final(final(self).slot()) == *final(old(self).slot()),
    {
        let mut val = new_val;
        core::mem::swap(&mut *self.slot, &mut val);
        val
    }

    /// The attached information, to read; `None` where nothing is attached.
    pub fn fs_info_as_ref(&self) -> (info: Option<&I>)
        ensures
            info is Some <==> self@ is Some,
            info matches Some(r) ==> Some(*r) == spec_fs_info_as_ref(self@),
    {
        match &*self.slot {
            Some(b) => Some(&**b),
            None => None,
        }
    }

    /// The attached information, to change in place; `None` where nothing is
    /// attached. What the caller writes is what stays attached.
    pub fn fs_info_as_mut(&mut self) -> (info: Option<&mut I>)
        ensures
            info is Some <==> old(self)@ is Some,
            info is Some <==> final(self)@ is Some,
            info matches Some(r) ==> Some(*r) == spec_fs_info_as_ref(old(self)@) && Some(*final(r))
                == spec_fs_info_as_ref(final(self)@),
            *final(final(self).slot()) == *final(old(self).slot()),
    {
        match &mut *self.slot {
            Some(b) => Some(&mut **b),
            None => None,
        }
    }
}

/// What a filesystem driver supplies.
///
/// The kernel may call into a driver from several contexts at once, so the
/// type is shared between them; what changes lives with each superblock, in
/// the information that the driver attaches to it.
pub trait FileSystem: Sync {
    /// The name under which the kernel knows the filesystem, ending in a NUL
    /// byte and with no other NUL byte in it.
    const NAME: &'static str;

    /// The mount behaviour of the filesystem.
    const FLAGS: FileSystemFlags;

    /// What the driver attaches to each superblock.
    type SuperBlockInfo;

    /// Fills a new superblock for a mount. `data` is the address of the mount
    /// options as the kernel passed them, `silent` its request to report no
    /// errors to the log.
    fn fill_super(
        sb: &mut SuperBlock<Self::SuperBlockInfo>,
        data: usize,
        silent: i32,
    ) -> KernelResult<()>;
}

/// The integer that tells the kernel how a callback ended: zero for success,
/// the code of the error otherwise.
pub open spec fn spec_status_code(result: KernelResult<()>) -> i32 {
    match result {
        Ok(_) => 0,
        Err(e) => e.spec_to_kernel_errno(),
    }
}

/// The integer that tells the kernel how a callback ended.
pub fn status_code(result: KernelResult<()>) -> (code: i32)
    ensures
        code == spec_status_code(result),
{
    match result {
        Ok(()) => 0,
        Err(e) => e.to_kernel_errno(),
    }
}

/// Fills the superblock whose slot is `slot` with the driver `T` and reports
/// to the kernel how that ended.
///
/// The driver decides the outcome. The contract says what this function adds
/// to it: the driver was called once, with a handle `sb` on exactly this slot
/// and with `data` and `silent` as they came; the handle was dropped as the
/// driver left it, so that what it showed last is in the slot it then held;
/// and the integer returned is the [`status_code`] of what the driver
/// returned. What a driver promises in its own contract of `fill_super`
/// therefore holds of `code`, and of the slot if the driver kept the handle
/// on its slot.
pub fn fill_super_callback<T: FileSystem>(
    slot: &mut Option<Box<T::SuperBlockInfo>>,
    data: usize,
    silent: i32,
) -> (code: i32)
    ensures
        exists|sb: &mut SuperBlock<T::SuperBlockInfo>, result: KernelResult<()>|
            (sb@ == *old(slot) && *final(sb.slot()) == *final(slot) && #[trigger] call_ensures(
                T::fill_super,
                (sb, data, silent),
                result,
            ) && final(sb)@ == *final(final(sb).slot()) && code == spec_status_code(result)),
{
    let mut sb = SuperBlock::new(slot);
    let result = T::fill_super(&mut sb, data, silent);
    proof {
        sb.lemma_slot_keeps_last_view();
    }
    status_code(result)
}

/// Whether `bytes` are a string as the kernel reads one: they end in a NUL
/// byte, the only one among them.
pub open spec fn spec_is_c_string(bytes: Seq<u8>) -> bool {
    &&& bytes.len() > 0
    &&& bytes.last() == 0
    &&& forall|i: int| 0 <= i < bytes.len() - 1 ==> bytes[i] != 0
}

/// Whether `bytes` are a string as the kernel reads one.
pub fn is_c_string(bytes: &[u8]) -> (ok: bool)
    ensures
        ok == spec_is_c_string(bytes@),
{
    let n: usize = bytes.len();
    if n == 0 || bytes[n - 1] != 0 {
        return false;
    }
    let mut i: usize = 0;
    while i < n - 1
        invariant
            n == bytes@.len(),
            i <= n - 1,
            forall|k: int| 0 <= k < i ==> bytes@[k] != 0,
        decreases n - i,
    {
        if bytes[i] == 0 {
            return false;
        }
        i += 1;
    }
    true
}

/// What the kernel is told of a filesystem type: the values that go into its
/// record for the driver `T`.
///
/// A record exists only for a driver whose name the kernel can read.
#[derive(Debug)]
pub struct FileSystemType<T: FileSystem> {
    _phantom: PhantomData<T>,
    name: &'static str,
    fs_flags: i32,
}

impl<T: FileSystem> FileSystemType<T> {
    #[verifier::type_invariant]
    spec fn describes_driver(&self) -> bool {
        &&& self.name == T::NAME
        &&& self.fs_flags == T::FLAGS.spec_bits()
        &&& spec_is_c_string(T::NAME.spec_bytes())
    }

    /// The name in the record.
    pub closed spec fn spec_name(&self) -> &'static str {
        self.name
    }

    /// The flags in the record, as a word of the kernel.
    pub closed spec fn spec_fs_flags(&self) -> i32 {
        self.fs_flags
    }

    /// The record of the driver `T`: its name and the word of its flags. Where
    /// the name of `T` is no string that the kernel can read, there is no
    /// record, and the error is that of an invalid argument.
    pub fn new() -> (record: KernelResult<FileSystemType<T>>)
        ensures
            record is Ok <==> spec_is_c_string(T::NAME.spec_bytes()),
            record matches Ok(r) ==> r.spec_name() == T::NAME && r.spec_fs_flags()
                == T::FLAGS.spec_bits(),
            record matches Err(e) ==> e@ == -EINVAL,
    {
        if is_c_string(T::NAME.as_bytes()) {
            Ok(FileSystemType { _phantom: PhantomData, name: T::NAME, fs_flags: T::FLAGS.bits() })
        } else {
            Err(Error::einval())
        }
    }

    /// The name of the filesystem: that of the driver, which ends in its only
    /// NUL byte.
    #[verifier::when_used_as_spec(spec_name)]
    pub fn name(&self) -> (name: &'static str)
        ensures
            name == self.spec_name(),
            name == T::NAME,
            spec_is_c_string(name.spec_bytes()),
    {
        proof {
            use_type_invariant(self);
        }
        self.name
    }

    /// The flags of the filesystem, as a word of the kernel: those of the
    /// driver.
    #[verifier::when_used_as_spec(spec_fs_flags)]
    pub fn fs_flags(&self) -> (fs_flags: i32)
        ensures
            fs_flags == self.spec_fs_flags(),
            fs_flags == T::FLAGS.spec_bits(),
    {
        proof {
            use_type_invariant(self);
        }
        self.fs_flags
    }
}

/// A filesystem type that the kernel has accepted.
///
/// The handle is the only evidence of the registration. It cannot be copied,
/// and [`Registration::unregister`] says once, and only once, that the kernel
/// is to forget the filesystem type.
#[derive(Debug)]
pub struct Registration<T: FileSystem> {
    record: FileSystemType<T>,
    registered: bool,
}

/// Concludes a registration: `record` was submitted to the kernel, which
/// answered `result`.
///
/// Zero gives the handle of a live registration. Any other answer gives the
/// error with that code; the record is dropped, and nothing remains to be
/// unregistered.
pub fn register<T: FileSystem>(record: FileSystemType<T>, result: i32) -> (outcome: KernelResult<
    Registration<T>,
>)
    ensures
        outcome is Ok <==> result == 0,
        outcome matches Ok(registration) ==> registration.is_registered()
            && registration.spec_record() == record,
        outcome matches Err(e) ==> e@ == result,
{
    if result != 0 {
        return Err(Error::from_kernel_errno(result));
    }
    Ok(Registration { record, registered: true })
}

/// One announcement of the end of a handle's life, for a handle that is live
/// or not as `registered` says: whether the kernel must be called, and
/// whether the handle is live afterwards. It never is.
pub open spec fn spec_unregister(registered: bool) -> (bool, bool) {
    (registered, false)
}

/// How many times the kernel is told to forget a filesystem type when the
/// end of a handle's life is announced `ends` times in a row.
pub open spec fn spec_unregister_calls(registered: bool, ends: nat) -> nat
    decreases ends,
{
    if ends == 0 {
        0
    } else {
        let (call_kernel, afterwards) = spec_unregister(registered);
        let first: nat = if call_kernel {
            1
        } else {
            0
        };
        first + spec_unregister_calls(afterwards, (ends - 1) as nat)
    }
}

impl<T: FileSystem> Registration<T> {
    /// Whether the kernel still knows the filesystem type.
    pub closed spec fn spec_is_registered(&self) -> bool {
        self.registered
    }

    /// The record that the kernel accepted.
    pub closed spec fn spec_record(&self) -> FileSystemType<T> {
        self.record
    }

    /// A handle that was released asks for no further call, however often
    /// its end is announced.
    pub proof fn lemma_released_stays_released(ends: nat)
        ensures
            spec_unregister_calls(false, ends) == 0,
        decreases ends,
    {
        if ends > 0 {
            Self::lemma_released_stays_released((ends - 1) as nat);
        }
    }

    /// The end of a live handle brings exactly one call to unregister,
    /// whether the end is announced once or many times.
    pub proof fn lemma_unregistered_exactly_once(ends: nat)
        requires
            ends >= 1,
        ensures
            spec_unregister_calls(true, ends) == 1,
    {
        Self::lemma_released_stays_released((ends - 1) as nat);
    }

    /// Whether the kernel still knows the filesystem type.
    #[verifier::when_used_as_spec(spec_is_registered)]
    pub fn is_registered(&self) -> (registered: bool)
        ensures
            registered == self.spec_is_registered(),
    {
        self.registered
    }

    /// The record that the kernel accepted.
    pub fn record(&self) -> (record: &FileSystemType<T>)
        ensures
            *record == self.spec_record(),
    {
        &self.record
    }

    /// Announces the end of the handle's life. The answer is `true` if the
    /// kernel must now be told to forget the filesystem type: the first time
    /// for a live handle, and never again.
    pub fn unregister(&mut self) -> (call_kernel: bool)
        ensures
            (call_kernel, final(self).is_registered()) == spec_unregister(old(self).is_registered()),
            final(self).spec_record() == old(self).spec_record(),
    {
        let call_kernel = self.registered;
        self.registered = false;
        call_kernel
    }
}

} // verus!
