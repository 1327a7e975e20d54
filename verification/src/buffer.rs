//! Buffer components of a pipeline state: vertex and instance buffers,
//! constant buffers, and free-standing global constants. Each is linked to
//! the inputs of a shader program, and then binds the data it is given to
//! the slots it was linked to.

use vstd::prelude::*;
use std::marker::PhantomData;
use crate::format::Format;

verus! {

/// The number of vertex attribute slots.
pub const MAX_VERTEX_ATTRIBUTES: usize = 16;

/// The number of constant buffer slots.
pub const MAX_CONSTANT_BUFFERS: usize = 16;

/// A set of attribute slots, one bit per slot.
pub type AttributeSlotSet = usize;

/// The layout of one element of a structure in a buffer.
#[derive(Clone, Copy, Debug, PartialEq, Eq)]
pub struct Element<F> {
    /// Format of the element.
    pub format: F,
    /// Offset from the beginning of the structure, in bytes.
    pub offset: u32,
    /// Size of the whole structure, in bytes.
    pub stride: u8,
}

/// A vertex attribute description: the element and the instance rate (0
/// for per-vertex data, otherwise the number of instances that share a
/// value).
pub type AttributeDesc = (Element<Format>, u8);

/// A structure laid out in a buffer, such as a vertex.
pub trait Structure<F> {
    /// The layout the structure has for the element with the given name:
    /// what `query` answers.
    spec fn spec_query(name: Seq<char>) -> Option<Element<F>>;

    /// Get the layout of an element by name.
    fn query(name: &str) -> (r: Option<Element<F>>)
        ensures
            r == Self::spec_query(name@),
    ;
}

/// A vertex attribute of a shader program.
#[derive(Clone, Debug)]
pub struct AttributeVar {
    pub name: String,
    pub slot: u8,
}

/// A constant buffer of a shader program.
#[derive(Clone, Debug)]
pub struct ConstantBufferVar {
    pub name: String,
    pub slot: u8,
}

/// A free-standing constant (uniform) of a shader program.
#[derive(Clone, Debug)]
pub struct ConstVar {
    pub name: String,
    pub location: usize,
}

/// Whether two strings hold the same characters.
fn same_name(name: &String, init: &str) -> (r: bool)
    ensures
        r == (name@ == init@),
{
    let init_owned = init.to_owned();
    *name == init_owned
}

/// Whether `element` suits the shader attribute `at`; every element does.
pub fn match_attribute(at: &AttributeVar, element: Format) -> (r: bool)
    ensures
        r,
{
    true
}

/// Advancement rate of a vertex buffer: the number of instances that share
/// each value, 0 for data that advances per vertex.
pub trait InstanceRateMarker {
    spec fn spec_rate() -> u8;

    fn rate() -> (r: u8)
        ensures
            r == Self::spec_rate(),
    ;
}

/// An array of `N` units advances every `N` instances (the count truncated
/// to a byte); no units, per vertex.
impl<const N: usize> InstanceRateMarker for [(); N] {
    open spec fn spec_rate() -> u8 {
        N as u8
    }

    fn rate() -> (r: u8) {
        N as u8
    }
}

/// The link of a vertex or instance buffer: the set of attribute slots its
/// elements were linked to.
pub struct VertexBufferCommon<T, I>(AttributeSlotSet, PhantomData<(T, I)>);

/// A vertex buffer, advanced per vertex.
pub type VertexBuffer<T> = VertexBufferCommon<T, [(); 0]>;

/// An instance buffer, advanced per instance.
pub type InstanceBuffer<T> = VertexBufferCommon<T, [(); 1]>;

/// Whether bit `i` of `mask` is set.
pub open spec fn has_slot(mask: usize, i: nat) -> bool {
    mask & (1usize << (i as usize)) != 0
}

impl<T, I> VertexBufferCommon<T, I> {
    /// The set of linked attribute slots, one bit per slot.
    pub closed spec fn slot_set(&self) -> AttributeSlotSet {
        self.0
    }

    /// Whether attribute slot `i` is linked.
    pub open spec fn links(&self, i: nat) -> bool {
        has_slot(self.slot_set(), i)
    }

    /// A link with no slot.
    pub fn new() -> (r: Self)
        ensures
            r.slot_set() == 0,
    {
        VertexBufferCommon(0, PhantomData)
    }

    /// Whether any slot is linked.
    pub fn is_active(&self) -> (r: bool)
        ensures
            r == (self.slot_set() != 0),
    {
        self.0 != 0
    }

    /// Links the shader attribute `at` given the layout `queried` that the
    /// buffer's structure has for the attribute's name: nothing happens and
    /// `None` comes back when the structure has no such element; otherwise
    /// the attribute's slot is added to the linked set and the element comes
    /// back with the buffer's instance rate.
    pub fn link_queried(&mut self, at: &AttributeVar, queried: Option<Element<Format>>) -> (r:
        Option<Result<AttributeDesc, Format>>) where I: InstanceRateMarker
        requires
            queried is Some ==> (at.slot as u32) < usize::BITS,
        ensures
            queried is None ==> r is None && final(self).slot_set() == old(self).slot_set(),
            queried matches Some(el) ==> {
                &&& r == Some(Ok::<AttributeDesc, Format>((el, I::spec_rate())))
                &&& final(self).slot_set() == old(self).slot_set() | (1usize << (at.slot as usize))
            },
    {
        match queried {
            None => None,
            Some(el) => {
                self.0 = self.0 | (1usize << (at.slot as usize));
                if match_attribute(at, el.format) {
                    let rate = I::rate();
                    Some(Ok((el, rate)))
                } else {
                    Some(Err(el.format))
                }
            },
        }
    }

    /// Links the shader attribute `at` to the element of the same name of
    /// the structure `T`: nothing happens and `None` comes back when the
    /// structure has no such element; otherwise the attribute's slot is added
    /// to the linked set and the element comes back with the buffer's
    /// instance rate.
    pub fn link_input(&mut self, at: &AttributeVar) -> (r: Option<Result<AttributeDesc, Format>>) where
        T: Structure<Format>,
        I: InstanceRateMarker,

        requires
            T::spec_query(at.name@) is Some ==> (at.slot as u32) < usize::BITS,
        ensures
            r == match T::spec_query(at.name@) {
                None => None,
                Some(el) => Some(Ok::<AttributeDesc, Format>((el, I::spec_rate()))),
            },
            T::spec_query(at.name@) is None ==> final(self).slot_set() == old(self).slot_set(),
            T::spec_query(at.name@) is Some ==> final(self).slot_set() == old(self).slot_set() | (
            1usize << (at.slot as usize)),
    {
        let queried = T::query(at.name.as_str());
        self.link_queried(at, queried)
    }

    /// Binds `buffer`, at offset 0, to every linked attribute slot; the
    /// other slots keep what they hold.
    pub fn bind_to<B: Copy>(&self, out: &mut [Option<(B, usize)>; MAX_VERTEX_ATTRIBUTES], buffer: B)
        ensures
            forall|i: int|
                0 <= i < MAX_VERTEX_ATTRIBUTES ==> #[trigger] final(out)@[i] == if self.links(
                    i as nat,
                ) {
                    Some((buffer, 0usize))
                } else {
                    old(out)@[i]
                },
    {
        let value = Some((buffer, 0usize));
        let mut i: usize = 0;
        while i < MAX_VERTEX_ATTRIBUTES
            invariant
                0 <= i <= MAX_VERTEX_ATTRIBUTES,
                forall|j: int|
                    0 <= j < i ==> #[trigger] out@[j] == if self.links(j as nat) {
                        value
                    } else {
                        old(out)@[j]
                    },
                forall|j: int| i <= j < MAX_VERTEX_ATTRIBUTES ==> #[trigger] out@[j] == old(out)@[j],
            decreases MAX_VERTEX_ATTRIBUTES - i,
        {
            if (self.0 & (1usize << i)) != 0 {
                out[i] = value;
            }
            i = i + 1;
        }
    }
}

/// The link of a constant buffer: the slot it was linked to, if any.
pub struct ConstantBuffer<T>(Option<u8>, PhantomData<T>);

impl<T> ConstantBuffer<T> {
    /// The linked slot, if any.
    pub closed spec fn slot(&self) -> Option<u8> {
        self.0
    }

    /// A link with no slot.
    pub fn new() -> (r: Self)
        ensures
            r.slot() is None,
    {
        ConstantBuffer(None, PhantomData)
    }

    /// Whether a slot is linked.
    pub fn is_active(&self) -> (r: bool)
        ensures
            r == self.slot() is Some,
    {
        self.0.is_some()
    }

    /// Links the shader constant buffer `cb` when its name is `init`: the
    /// link takes its slot and `Some(Ok(()))` comes back. Otherwise nothing
    /// changes and `None` comes back.
    pub fn link_constant_buffer<E>(&mut self, cb: &ConstantBufferVar, init: &str) -> (r: Option<
        Result<(), E>,
    >)
        ensures
            cb.name@ == init@ ==> r == Some(Ok::<(), E>(())) && final(self).slot() == Some(cb.slot),
            cb.name@ != init@ ==> r is None && final(self).slot() == old(self).slot(),
    {
        if same_name(&cb.name, init) {
            self.0 = Some(cb.slot);
            Some(Ok(()))
        } else {
            None
        }
    }

    /// Binds `buffer` to the linked slot, if any; the other slots keep what
    /// they hold.
    pub fn bind_to<B>(&self, out: &mut [Option<B>; MAX_CONSTANT_BUFFERS], buffer: B)
        requires
            self.slot() matches Some(s) ==> s < MAX_CONSTANT_BUFFERS,
        ensures
            self.slot() matches Some(s) ==> final(out)@ == old(out)@.update(s as int, Some(buffer)),
            self.slot() is None ==> final(out)@ == old(out)@,
    {
        if let Some(slot) = self.0 {
            out[slot as usize] = Some(buffer);
        }
    }
}

/// The link of a free-standing shader constant: its location, if any.
pub struct Global<T>(Option<usize>, PhantomData<T>);

impl<T> Global<T> {
    /// The linked location, if any.
    pub closed spec fn location(&self) -> Option<usize> {
        self.0
    }

    /// A link with no location.
    pub fn new() -> (r: Self)
        ensures
            r.location() is None,
    {
        Global(None, PhantomData)
    }

    /// Whether a location is linked.
    pub fn is_active(&self) -> (r: bool)
        ensures
            r == self.location() is Some,
    {
        self.0.is_some()
    }

    /// Links the shader constant `var` when its name is `init`: the link
    /// takes its location and `Some(Ok(()))` comes back. Otherwise nothing
    /// changes and `None` comes back.
    pub fn link_global_constant<E>(&mut self, var: &ConstVar, init: &str) -> (r: Option<
        Result<(), E>,
    >)
        ensures
            var.name@ == init@ ==> r == Some(Ok::<(), E>(())) && final(self).location() == Some(
                var.location,
            ),
            var.name@ != init@ ==> r is None && final(self).location() == old(self).location(),
    {
        if same_name(&var.name, init) {
            self.0 = Some(var.location);
            Some(Ok(()))
        } else {
            None
        }
    }

    /// Appends the uniform `value` for the linked location, if any.
    pub fn bind_to<V>(&self, out: &mut Vec<(usize, V)>, value: V)
        ensures
            self.location() matches Some(loc) ==> final(out)@ == old(out)@.push((loc, value)),
            self.location() is None ==> final(out)@ == old(out)@,
    {
        if let Some(loc) = self.0 {
            out.push((loc, value));
        }
    }
}

} // verus!
