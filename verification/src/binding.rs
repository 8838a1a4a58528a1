use vstd::prelude::*;

use core::marker::PhantomData;

verus! {

/// Which pipeline stages may see a binding.
#[derive(Clone, Copy, Debug, PartialEq, Eq, Structural)]
pub enum Visibility {
    Compute,
    Fragment,
}

/// What kind of resource a layout slot accepts.
#[derive(Clone, Copy, Debug, PartialEq, Eq, Structural)]
pub enum BindingType {
    /// A buffer the shader reads, and writes unless `read_only`.
    StorageBuffer { read_only: bool },
    /// A sampled two-dimensional texture.
    SampledTexture,
    /// A texture sampler.
    TextureSampler,
}

/// One slot of a bind group layout.
#[derive(Clone, Copy, Debug, PartialEq, Eq, Structural)]
pub struct BindGroupLayoutEntry {
    pub binding: u32,
    pub visibility: Visibility,
    pub ty: BindingType,
}

/// Which of a material's two textures a binding refers to.
#[derive(Clone, Copy, Debug, PartialEq, Eq, Structural)]
pub enum TexRole {
    Diffuse,
    Normal,
}

/// The resource a bind group entry wires into its slot, named abstractly:
/// the front end supplies the device objects these stand for.
#[derive(Clone, Copy, Debug, PartialEq, Eq, Structural)]
pub enum BindingResource {
    /// The view of one of the owning material's textures.
    TextureView(TexRole),
    /// The sampler of one of the owning material's textures.
    Sampler(TexRole),
    /// The owning mesh's vertex buffer.
    VertexBuffer,
    /// The owning mesh's index buffer.
    IndexBuffer,
}

/// One entry of a bind group: a slot and the resource wired into it.
#[derive(Clone, Copy, Debug, PartialEq, Eq, Structural)]
pub struct BindGroupEntry {
    pub binding: u32,
    pub resource: BindingResource,
}

/// A bind group layout: the ordered slots a pipeline declares.
pub struct BindGroupLayout {
    pub entries: Vec<BindGroupLayoutEntry>,
}

impl View for BindGroupLayout {
    type V = Seq<BindGroupLayoutEntry>;

    open spec fn view(&self) -> Seq<BindGroupLayoutEntry> {
        self.entries@
    }
}

/// A bind group: the ordered resources wired into a layout's slots.
pub struct BindGroup {
    pub entries: Vec<BindGroupEntry>,
}

impl View for BindGroup {
    type V = Seq<BindGroupEntry>;

    open spec fn view(&self) -> Seq<BindGroupEntry> {
        self.entries@
    }
}

/// A resource that can be bound into a compute pass without the binder
/// knowing its concrete type: it declares the layout slots it needs and
/// produces the entries that fill them.
pub trait Bindable {
    /// The layout slots every value of this type binds to.
    spec fn spec_layout_entries() -> Seq<BindGroupLayoutEntry>;

    /// The entries this value wires into those slots.
    spec fn spec_bind_group_entries(&self) -> Seq<BindGroupEntry>;

    /// Declare the layout.  Slots must carry distinct, consecutive binding
    /// indices counted from zero.
    fn layout_entries() -> (r: Vec<BindGroupLayoutEntry>)
        ensures
            r@ == Self::spec_layout_entries(),
            forall|i: int| 0 <= i < r@.len() ==> (#[trigger] r@[i]).binding == i,
    ;

    /// Produce the bind group entries.  They must fill exactly the declared
    /// layout slots, entry by entry.
    fn bind_group_entries(&self) -> (r: Vec<BindGroupEntry>)
        ensures
            r@ == self.spec_bind_group_entries(),
            r@.len() == Self::spec_layout_entries().len(),
            forall|i: int|
                0 <= i < r@.len() ==> (#[trigger] r@[i]).binding
                    == Self::spec_layout_entries()[i].binding,
    ;
}

/// Builds the bind group layout for one bindable resource type and wires
/// concrete resources of that type to it.  The binder decouples the compute
/// dispatch from the resource's concrete shape: any type implementing
/// `Bindable` can be bound the same way.
pub struct Binder<T> {
    pub layout: BindGroupLayout,
    pub resource: PhantomData<T>,
}

impl<T: Bindable> Binder<T> {
    /// Declare the layout for `T`'s bindings.
    pub fn new() -> (r: Self)
        ensures
            r.layout@ == T::spec_layout_entries(),
    {
        Binder { layout: BindGroupLayout { entries: T::layout_entries() }, resource: PhantomData }
    }

    /// Produce the bind group wiring `resource`'s entries to this binder's
    /// layout.  The `Bindable` contract guarantees the entries fill the
    /// layout's slots exactly.
    pub fn create_bind_group(&self, resource: &T) -> (r: BindGroup)
        ensures
            r@ == resource.spec_bind_group_entries(),
    {
        BindGroup { entries: resource.bind_group_entries() }
    }
}

} // verus!
