//! The items of a class file and how each is read.
use vstd::prelude::*;
use crate::error::{ClassFileError, ClassFileErrorV};
use crate::stream::{ClassFileStream, reads_as};

pub mod constant_pool;
pub mod ids;
pub mod opcodes;
pub mod attribute_info;
pub mod file;
pub mod fields;
pub mod methods;

pub use self::constant_pool::{ConstantPool, ConstantPoolV};

verus! {

/// The mathematical form of an optional constant pool.
pub open spec fn cp_view(cp: Option<&ConstantPool>) -> Option<ConstantPoolV> {
    match cp {
        Some(c) => Some(c@),
        None => None,
    }
}

/// Whether `bits` holds no flag outside `all`.
pub open spec fn known_flags(bits: u16, all: u16) -> bool {
    bits & !all == 0
}

/// The views of the elements of a sequence.
pub open spec fn views<T: View>(v: Seq<T>) -> Seq<T::V> {
    Seq::new(v.len(), |i: int| v[i]@)
}

/// A component of a class file.
pub trait ClassFileItem: Sized + View {
    /// What reading this item from the front of `bytes` gives, with the
    /// constant pool `cp`: the item and how many bytes it took, or the error.
    spec fn spec_read(bytes: Seq<u8>, cp: Option<ConstantPoolV>) -> Result<(Self::V, nat), ClassFileErrorV>;

    /// Read this item from a class file stream.
    fn read_from_stream(s: &mut ClassFileStream, cp: Option<&ConstantPool>) -> (r: Result<Self, ClassFileError>)
        requires
            old(s).wf(),
            Self::spec_read(old(s).rest(), cp_view(cp)) != Err::<(Self::V, nat), ClassFileErrorV>(ClassFileErrorV::Aborts),
        ensures
            reads_as(*old(s), *final(s), r, Self::spec_read(old(s).rest(), cp_view(cp))),
    ;
}

/// Reading `n` items of type `T` one after another from the front of `b`.
pub open spec fn read_seq<T: ClassFileItem>(b: Seq<u8>, cp: Option<ConstantPoolV>, n: nat) -> Result<(Seq<T::V>, nat), ClassFileErrorV>
    decreases n,
{
    if n == 0 {
        Ok((seq![], 0))
    } else {
        match read_seq::<T>(b, cp, (n - 1) as nat) {
            Ok((vs, k)) => match T::spec_read(b.skip(k as int), cp) {
                Ok((v, m)) => Ok((vs.push(v), k + m)),
                Err(e) => Err(e),
            },
            Err(e) => Err(e),
        }
    }
}

/// Once reading a sequence fails, reading a longer one fails the same way.
pub proof fn lemma_read_seq_err<T: ClassFileItem>(b: Seq<u8>, cp: Option<ConstantPoolV>, i: nat, n: nat)
    requires
        i <= n,
        read_seq::<T>(b, cp, i) is Err,
    ensures
        read_seq::<T>(b, cp, n) == read_seq::<T>(b, cp, i),
    decreases n - i,
{
    if i < n {
        lemma_read_seq_err::<T>(b, cp, i, (n - 1) as nat);
    }
}

/// Reading an item of type `T` never stops the program, whatever the bytes.
pub open spec fn never_aborts<T: ClassFileItem>(cp: Option<ConstantPoolV>) -> bool {
    forall|x: Seq<u8>| #[trigger] T::spec_read(x, cp) != Err::<(T::V, nat), ClassFileErrorV>(ClassFileErrorV::Aborts)
}

/// An item of type `T` that is read takes no more bytes than there are.
pub open spec fn within_bytes<T: ClassFileItem>(cp: Option<ConstantPoolV>) -> bool {
    forall|x: Seq<u8>| #[trigger] T::spec_read(x, cp) matches Ok((_, k)) ==> k <= x.len()
}

/// Items that each take no more bytes than there are: so does a sequence
/// of them, which has as many items as were asked for.
pub proof fn lemma_read_seq_len<T: ClassFileItem>(b: Seq<u8>, cp: Option<ConstantPoolV>, n: nat)
    requires
        within_bytes::<T>(cp),
    ensures
        read_seq::<T>(b, cp, n) matches Ok((vs, k)) ==> k <= b.len() && vs.len() == n,
    decreases n,
{
    if n > 0 {
        lemma_read_seq_len::<T>(b, cp, (n - 1) as nat);
        if let Ok((vs, k)) = read_seq::<T>(b, cp, (n - 1) as nat) {
            assert(T::spec_read(b.skip(k as int), cp) matches Ok((_, m)) ==> m <= b.skip(k as int).len());
        }
    }
}

/// Where reading one item never stops the program, neither does reading a
/// sequence of them.
pub proof fn lemma_read_seq_no_abort<T: ClassFileItem>(b: Seq<u8>, cp: Option<ConstantPoolV>, n: nat)
    requires
        never_aborts::<T>(cp),
    ensures
        read_seq::<T>(b, cp, n) != Err::<(Seq<T::V>, nat), ClassFileErrorV>(ClassFileErrorV::Aborts),
    decreases n,
{
    if n > 0 {
        lemma_read_seq_no_abort::<T>(b, cp, (n - 1) as nat);
        if let Ok((vs, k)) = read_seq::<T>(b, cp, (n - 1) as nat) {
            assert(T::spec_read(b.skip(k as int), cp) != Err::<(T::V, nat), ClassFileErrorV>(ClassFileErrorV::Aborts));
        }
    }
}

impl ClassFileStream {
    /// Read a sequence of `length` `T`s from this stream.
    pub fn read_sequence<T: ClassFileItem>(&mut self, constant_pool: Option<&ConstantPool>, length: usize) -> (r: Result<Vec<T>, ClassFileError>)
        requires
            old(self).wf(),
            read_seq::<T>(old(self).rest(), cp_view(constant_pool), length as nat)
                != Err::<(Seq<T::V>, nat), ClassFileErrorV>(ClassFileErrorV::Aborts),
        ensures
            final(self).wf(),
            final(self).data() == old(self).data(),
            match read_seq::<T>(old(self).rest(), cp_view(constant_pool), length as nat) {
                Ok((vs, n)) => r matches Ok(v) && views(v@) == vs && final(self).pos() == old(self).pos() + n,
                Err(e) => r matches Err(x) && x@ == e,
            },
    {
        let ghost b = old(self).rest();
        let ghost cpv = cp_view(constant_pool);
        let mut v: Vec<T> = Vec::new();
        let mut i: usize = 0;
        assert(views(v@) =~= Seq::<T::V>::empty());
        while i < length
            invariant
                i <= length,
                old(self).wf(),
                self.wf(),
                self.data() == old(self).data(),
                b == old(self).rest(),
                cpv == cp_view(constant_pool),
                read_seq::<T>(b, cpv, length as nat) != Err::<(Seq<T::V>, nat), ClassFileErrorV>(ClassFileErrorV::Aborts),
                read_seq::<T>(b, cpv, i as nat) == Ok::<(Seq<T::V>, nat), ClassFileErrorV>((views(v@), (self.pos() - old(self).pos()) as nat)),
                self.pos() >= old(self).pos(),
            decreases length - i,
        {
            let ghost k = (self.pos() - old(self).pos()) as nat;
            assert(self.rest() =~= b.skip(k as int));
            proof {
                if T::spec_read(b.skip(k as int), cpv) is Err {
                    lemma_read_seq_err::<T>(b, cpv, (i + 1) as nat, length as nat);
                }
            }
            let item = T::read_from_stream(self, constant_pool);
            match item {
                Ok(x) => {
                    let ghost prev = v@;
                    v.push(x);
                    assert(views(v@) =~= views(prev).push(x@));
                },
                Err(e) => {
                    proof {
                        lemma_read_seq_err::<T>(b, cpv, (i + 1) as nat, length as nat);
                    }
                    return Err(e);
                },
            }
            i = i + 1;
        }
        Ok(v)
    }
}

impl ClassFileItem for u8 {
    open spec fn spec_read(bytes: Seq<u8>, cp: Option<ConstantPoolV>) -> Result<(u8, nat), ClassFileErrorV> {
        crate::stream::fixed(bytes, 1, bytes[0])
    }

    fn read_from_stream(s: &mut ClassFileStream, cp: Option<&ConstantPool>) -> (r: Result<Self, ClassFileError>) {
        s.read_u1()
    }
}

impl ClassFileItem for u16 {
    open spec fn spec_read(bytes: Seq<u8>, cp: Option<ConstantPoolV>) -> Result<(u16, nat), ClassFileErrorV> {
        crate::stream::fixed(bytes, 2, crate::stream::be16(bytes, 0))
    }

    fn read_from_stream(s: &mut ClassFileStream, cp: Option<&ConstantPool>) -> (r: Result<Self, ClassFileError>) {
        s.read_u2()
    }
}

impl ClassFileItem for i16 {
    open spec fn spec_read(bytes: Seq<u8>, cp: Option<ConstantPoolV>) -> Result<(i16, nat), ClassFileErrorV> {
        crate::stream::fixed(bytes, 2, crate::stream::be16(bytes, 0) as i16)
    }

    fn read_from_stream(s: &mut ClassFileStream, cp: Option<&ConstantPool>) -> (r: Result<Self, ClassFileError>) {
        let v = s.read_u2()?;
        Ok(v as i16)
    }
}

impl ClassFileItem for u32 {
    open spec fn spec_read(bytes: Seq<u8>, cp: Option<ConstantPoolV>) -> Result<(u32, nat), ClassFileErrorV> {
        crate::stream::fixed(bytes, 4, crate::stream::be32(bytes, 0))
    }

    fn read_from_stream(s: &mut ClassFileStream, cp: Option<&ConstantPool>) -> (r: Result<Self, ClassFileError>) {
        s.read_u4()
    }
}

} // verus!
