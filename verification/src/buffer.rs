//! The graphics-context model and the GPU buffer handles.
//!
//! The context is a capability handle with a finite element capacity; a
//! buffer owns the elements uploaded into it.  A buffer creation or refill
//! that asks for more elements than the context can serve fails with
//! [`RenderError::ResourceAllocation`] and leaves the buffer unchanged.

use vstd::prelude::*;
use crate::error::RenderError;

verus! {

/// A handle on the graphics context.  Every GPU resource is created through
/// a context and keeps a copy of the handle; the capacity models the finite
/// memory of the device.
#[derive(Clone, Copy, Debug, PartialEq, Eq, Structural)]
pub struct Context {
    /// Largest element count a single buffer allocation can serve.
    pub max_buffer_elements: usize,
}

impl Context {
    /// Opens a context able to allocate buffers of up to
    /// `max_buffer_elements` elements each.
    pub fn new(max_buffer_elements: usize) -> (r: Self)
        ensures
            r.max_buffer_elements == max_buffer_elements,
    {
        Context { max_buffer_elements }
    }
}

/// A GPU buffer holding one value per mesh vertex.
pub struct VertexBuffer<T> {
    context: Context,
    data: Vec<T>,
}

impl<T: Copy> VertexBuffer<T> {
    /// The elements currently uploaded.
    pub closed spec fn spec_data(self) -> Seq<T> {
        self.data@
    }

    /// The element capacity of the owning context.
    pub closed spec fn spec_capacity(self) -> usize {
        self.context.max_buffer_elements
    }

    /// Allocates a vertex buffer and uploads `data` into it.
    pub fn new_with_data(context: &Context, data: &[T]) -> (r: Result<Self, RenderError>)
        ensures
            data@.len() <= context.max_buffer_elements ==> ({
                &&& r matches Ok(b)
                &&& b.spec_data() == data@
                &&& b.spec_capacity() == context.max_buffer_elements
            }),
            data@.len() > context.max_buffer_elements ==> ({
                &&& r matches Err(RenderError::ResourceAllocation { requested, capacity })
                &&& requested == data@.len()
                &&& capacity == context.max_buffer_elements
            }),
    {
        if data.len() > context.max_buffer_elements {
            return Err(
                RenderError::ResourceAllocation {
                    requested: data.len(),
                    capacity: context.max_buffer_elements,
                },
            );
        }
        let mut owned: Vec<T> = Vec::new();
        let mut i: usize = 0;
        while i < data.len()
            invariant
                i <= data@.len(),
                owned@ == data@.subrange(0, i as int),
            decreases data@.len() - i,
        {
            owned.push(data[i]);
            i = i + 1;
        }
        proof {
            assert(owned@ == data@.subrange(0, data@.len() as int));
            assert(data@.subrange(0, data@.len() as int) == data@);
        }
        Ok(VertexBuffer { context: *context, data: owned })
    }

    /// Number of vertices the buffer holds.
    pub fn vertex_count(&self) -> (r: usize)
        ensures
            r == self.spec_data().len(),
    {
        self.data.len()
    }
}

/// A GPU buffer holding one value per drawn instance.
pub struct InstanceBuffer<T> {
    context: Context,
    data: Vec<T>,
}

impl<T: Copy> InstanceBuffer<T> {
    /// The elements currently uploaded.
    pub closed spec fn spec_data(self) -> Seq<T> {
        self.data@
    }

    /// The element capacity of the owning context.
    pub closed spec fn spec_capacity(self) -> usize {
        self.context.max_buffer_elements
    }

    /// Allocates an empty instance buffer.
    pub fn new(context: &Context) -> (r: Self)
        ensures
            r.spec_data() == Seq::<T>::empty(),
            r.spec_capacity() == context.max_buffer_elements,
    {
        InstanceBuffer { context: *context, data: Vec::new() }
    }

    /// Number of instances the buffer holds.
    pub fn instance_count(&self) -> (r: usize)
        ensures
            r == self.spec_data().len(),
    {
        self.data.len()
    }

    /// Replaces the whole contents of the buffer with `data`.  On an
    /// allocation failure the previous contents stay untouched.
    pub fn fill(&mut self, data: &Vec<T>) -> (r: Result<(), RenderError>)
        ensures
            final(self).spec_capacity() == old(self).spec_capacity(),
            data@.len() <= old(self).spec_capacity() ==> ({
                &&& r matches Ok(())
                &&& final(self).spec_data() == data@
            }),
            data@.len() > old(self).spec_capacity() ==> ({
                &&& r matches Err(RenderError::ResourceAllocation { requested, capacity })
                &&& requested == data@.len()
                &&& capacity == old(self).spec_capacity()
                &&& final(self).spec_data() == old(self).spec_data()
            }),
    {
        if data.len() > self.context.max_buffer_elements {
            return Err(
                RenderError::ResourceAllocation {
                    requested: data.len(),
                    capacity: self.context.max_buffer_elements,
                },
            );
        }
        let mut owned: Vec<T> = Vec::new();
        let mut i: usize = 0;
        while i < data.len()
            invariant
                i <= data@.len(),
                owned@ == data@.subrange(0, i as int),
            decreases data@.len() - i,
        {
            owned.push(data[i]);
            i = i + 1;
        }
        proof {
            assert(owned@ == data@.subrange(0, data@.len() as int));
            assert(data@.subrange(0, data@.len() as int) == data@);
        }
        self.data = owned;
        Ok(())
    }
}

/// The integer width the indices of an element buffer were uploaded with.
#[derive(Clone, Copy, Debug, PartialEq, Eq, Structural)]
pub enum IndexWidth {
    /// Eight-bit indices.
    U8,
    /// Sixteen-bit indices.
    U16,
    /// Thirty-two-bit indices.
    U32,
}

/// A GPU buffer holding triangle indices.  Indices are widened to `u32` for
/// uniform handling; the width they were uploaded with is preserved.
pub struct ElementBuffer {
    context: Context,
    data: Vec<u32>,
    width: IndexWidth,
}

impl ElementBuffer {
    /// The indices currently uploaded, widened to `u32`.
    pub closed spec fn spec_data(self) -> Seq<u32> {
        self.data@
    }

    /// The width the indices were uploaded with.
    pub closed spec fn spec_width(self) -> IndexWidth {
        self.width
    }

    /// The element capacity of the owning context.
    pub closed spec fn spec_capacity(self) -> usize {
        self.context.max_buffer_elements
    }

    /// Allocates an element buffer from eight-bit indices.
    pub fn new_with_data_u8(context: &Context, indices: &[u8]) -> (r: Result<Self, RenderError>)
        ensures
            indices@.len() <= context.max_buffer_elements ==> ({
                &&& r matches Ok(b)
                &&& b.spec_data() == indices@.map_values(|v: u8| v as u32)
                &&& b.spec_width() == IndexWidth::U8
                &&& b.spec_capacity() == context.max_buffer_elements
            }),
            indices@.len() > context.max_buffer_elements ==> ({
                &&& r matches Err(RenderError::ResourceAllocation { requested, capacity })
                &&& requested == indices@.len()
                &&& capacity == context.max_buffer_elements
            }),
    {
        if indices.len() > context.max_buffer_elements {
            return Err(
                RenderError::ResourceAllocation {
                    requested: indices.len(),
                    capacity: context.max_buffer_elements,
                },
            );
        }
        let mut owned: Vec<u32> = Vec::new();
        let mut i: usize = 0;
        while i < indices.len()
            invariant
                i <= indices@.len(),
                owned@ == indices@.subrange(0, i as int).map_values(|v: u8| v as u32),
            decreases indices@.len() - i,
        {
            owned.push(indices[i] as u32);
            proof {
                assert(indices@.subrange(0, i + 1).map_values(|v: u8| v as u32)
                    =~= indices@.subrange(0, i as int).map_values(|v: u8| v as u32).push(
                    indices@[i as int] as u32,
                ));
            }
            i = i + 1;
        }
        proof {
            assert(indices@.subrange(0, indices@.len() as int) == indices@);
        }
        Ok(ElementBuffer { context: *context, data: owned, width: IndexWidth::U8 })
    }

    /// Allocates an element buffer from sixteen-bit indices.
    pub fn new_with_data_u16(context: &Context, indices: &[u16]) -> (r: Result<Self, RenderError>)
        ensures
            indices@.len() <= context.max_buffer_elements ==> ({
                &&& r matches Ok(b)
                &&& b.spec_data() == indices@.map_values(|v: u16| v as u32)
                &&& b.spec_width() == IndexWidth::U16
                &&& b.spec_capacity() == context.max_buffer_elements
            }),
            indices@.len() > context.max_buffer_elements ==> ({
                &&& r matches Err(RenderError::ResourceAllocation { requested, capacity })
                &&& requested == indices@.len()
                &&& capacity == context.max_buffer_elements
            }),
    {
        if indices.len() > context.max_buffer_elements {
            return Err(
                RenderError::ResourceAllocation {
                    requested: indices.len(),
                    capacity: context.max_buffer_elements,
                },
            );
        }
        let mut owned: Vec<u32> = Vec::new();
        let mut i: usize = 0;
        while i < indices.len()
            invariant
                i <= indices@.len(),
                owned@ == indices@.subrange(0, i as int).map_values(|v: u16| v as u32),
            decreases indices@.len() - i,
        {
            owned.push(indices[i] as u32);
            proof {
                assert(indices@.subrange(0, i + 1).map_values(|v: u16| v as u32)
                    =~= indices@.subrange(0, i as int).map_values(|v: u16| v as u32).push(
                    indices@[i as int] as u32,
                ));
            }
            i = i + 1;
        }
        proof {
            assert(indices@.subrange(0, indices@.len() as int) == indices@);
        }
        Ok(ElementBuffer { context: *context, data: owned, width: IndexWidth::U16 })
    }

    /// Allocates an element buffer from thirty-two-bit indices.
    pub fn new_with_data_u32(context: &Context, indices: &[u32]) -> (r: Result<Self, RenderError>)
        ensures
            indices@.len() <= context.max_buffer_elements ==> ({
                &&& r matches Ok(b)
                &&& b.spec_data() == indices@
                &&& b.spec_width() == IndexWidth::U32
                &&& b.spec_capacity() == context.max_buffer_elements
            }),
            indices@.len() > context.max_buffer_elements ==> ({
                &&& r matches Err(RenderError::ResourceAllocation { requested, capacity })
                &&& requested == indices@.len()
                &&& capacity == context.max_buffer_elements
            }),
    {
        if indices.len() > context.max_buffer_elements {
            return Err(
                RenderError::ResourceAllocation {
                    requested: indices.len(),
                    capacity: context.max_buffer_elements,
                },
            );
        }
        let mut owned: Vec<u32> = Vec::new();
        let mut i: usize = 0;
        while i < indices.len()
            invariant
                i <= indices@.len(),
                owned@ == indices@.subrange(0, i as int),
            decreases indices@.len() - i,
        {
            owned.push(indices[i]);
            i = i + 1;
        }
        proof {
            assert(owned@ == indices@.subrange(0, indices@.len() as int));
            assert(indices@.subrange(0, indices@.len() as int) == indices@);
        }
        Ok(ElementBuffer { context: *context, data: owned, width: IndexWidth::U32 })
    }

    /// Number of indices the buffer holds.
    pub fn count(&self) -> (r: usize)
        ensures
            r == self.spec_data().len(),
    {
        self.data.len()
    }

    /// The width the indices were uploaded with.
    pub fn width(&self) -> (r: IndexWidth)
        ensures
            r == self.spec_width(),
    {
        self.width
    }
}

} // verus!
