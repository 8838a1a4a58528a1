use vstd::prelude::*;
use vstd::string::{StrSliceExecFns, StringExecFns};

use crate::binding::{BindGroup, BindGroupEntry, BindGroupLayout, BindGroupLayoutEntry,
    BindingResource, BindingType, TexRole, Visibility};

verus! {

/// The pixel format a texture is uploaded with.  Normal maps carry vectors,
/// not colours, so they must be read without sRGB conversion; diffuse
/// textures are colour data and use sRGB-aware sampling.
#[derive(Clone, Copy, Debug, PartialEq, Eq, Structural)]
pub enum TextureFormat {
    Rgba8Unorm,
    Rgba8UnormSrgb,
}

/// The format the "is normal map" flag selects.
pub open spec fn spec_texture_format(is_normal_map: bool) -> TextureFormat {
    if is_normal_map {
        TextureFormat::Rgba8Unorm
    } else {
        TextureFormat::Rgba8UnormSrgb
    }
}

/// Select the upload format for a texture: linear for normal maps, sRGB for
/// colour data.
pub fn texture_format_for(is_normal_map: bool) -> (r: TextureFormat)
    ensures
        r == spec_texture_format(is_normal_map),
{
    if is_normal_map {
        TextureFormat::Rgba8Unorm
    } else {
        TextureFormat::Rgba8UnormSrgb
    }
}

/// A device-resident texture and its sampler, modelled by the file it was
/// loaded from, its normal-map interpretation, and the upload format that
/// interpretation selected.
pub struct Texture {
    pub path: String,
    pub is_normal_map: bool,
    pub format: TextureFormat,
}

/// The mathematical value of a `Texture`.
#[verifier::ext_equal]
pub ghost struct TextureView {
    pub path: Seq<char>,
    pub is_normal_map: bool,
    pub format: TextureFormat,
}

impl View for Texture {
    type V = TextureView;

    open spec fn view(&self) -> TextureView {
        TextureView { path: self.path@, is_normal_map: self.is_normal_map, format: self.format }
    }
}

impl Texture {
    /// A texture is well formed when its format is the one its normal-map
    /// flag selects.
    pub open spec fn wf(self) -> bool {
        self.format == spec_texture_format(self.is_normal_map)
    }

    /// Describe a texture loaded from `path` under the given interpretation.
    /// The runner that uploads the pixels must use the selected format.
    pub fn new(path: String, is_normal_map: bool) -> (r: Texture)
        ensures
            r.path == path,
            r.is_normal_map == is_normal_map,
            r.wf(),
    {
        let format = texture_format_for(is_normal_map);
        Texture { path, is_normal_map, format }
    }
}

/// One material record of a parsed asset: its name and the texture file
/// names it references, when it references any.
pub struct MaterialRecord {
    pub name: String,
    pub diffuse_texture: Option<String>,
    pub normal_texture: Option<String>,
}

/// The mathematical value of a `MaterialRecord`.
#[verifier::ext_equal]
pub ghost struct MaterialRecordView {
    pub name: Seq<char>,
    pub diffuse_texture: Option<Seq<char>>,
    pub normal_texture: Option<Seq<char>>,
}

impl View for MaterialRecord {
    type V = MaterialRecordView;

    open spec fn view(&self) -> MaterialRecordView {
        MaterialRecordView {
            name: self.name@,
            diffuse_texture: match self.diffuse_texture {
                Some(s) => Some(s@),
                None => None,
            },
            normal_texture: match self.normal_texture {
                Some(s) => Some(s@),
                None => None,
            },
        }
    }
}

/// One texture the loader asks to be read and uploaded: the resolved file
/// path and the interpretation to load it under.
pub struct TextureRequest {
    pub path: String,
    pub is_normal_map: bool,
}

/// A texture file name resolved against the asset's containing directory.
/// An asset in the working directory has an empty containing directory, and
/// its textures resolve to their bare file names.  A record that names no
/// file resolves to the directory alone, which then fails to load as a
/// texture — exactly as an empty file name would.
pub open spec fn joined_path(folder: Seq<char>, name: Option<Seq<char>>) -> Seq<char> {
    let file = match name {
        Some(n) => n,
        None => Seq::<char>::empty(),
    };
    if folder.len() == 0 {
        file
    } else {
        folder + seq!['/'] + file
    }
}

/// Resolve one texture file name against the containing directory.
fn resolve_path(containing_folder: &str, name: &Option<String>) -> (r: String)
    ensures
        r@ == joined_path(containing_folder@, match *name {
            Some(ref n) => Some(n@),
            None => None::<Seq<char>>,
        }),
{
    let mut p = String::from_str(containing_folder);
    if containing_folder.unicode_len() > 0 {
        p.append("/");
        proof {
            reveal_strlit("/");
            assert("/"@ =~= seq!['/']);
        }
    }
    match name {
        Some(n) => {
            p.append(n.as_str());
        },
        None => {},
    }
    proof {
        assert(p@ =~= joined_path(containing_folder@, match *name {
            Some(ref n) => Some(n@),
            None => None::<Seq<char>>,
        }));
    }
    p
}

/// The two texture loads a material record asks for: its diffuse texture,
/// read as colour data, then its normal texture, read as a normal map, both
/// resolved against the asset's containing directory.
pub fn texture_requests(rec: &MaterialRecord, containing_folder: &str) -> (r: Vec<TextureRequest>)
    ensures
        r@.len() == 2,
        r@[0].path@ == joined_path(containing_folder@, rec@.diffuse_texture),
        r@[0].is_normal_map == false,
        r@[1].path@ == joined_path(containing_folder@, rec@.normal_texture),
        r@[1].is_normal_map == true,
{
    let mut r: Vec<TextureRequest> = Vec::new();
    r.push(
        TextureRequest {
            path: resolve_path(containing_folder, &rec.diffuse_texture),
            is_normal_map: false,
        },
    );
    r.push(
        TextureRequest {
            path: resolve_path(containing_folder, &rec.normal_texture),
            is_normal_map: true,
        },
    );
    r
}

/// The layout slots a material binds its textures to: the diffuse texture's
/// view and sampler at bindings 0 and 1, the normal texture's at 2 and 3,
/// all visible to fragment stages.
pub open spec fn material_layout_entries() -> Seq<BindGroupLayoutEntry> {
    seq![
        BindGroupLayoutEntry {
            binding: 0,
            visibility: Visibility::Fragment,
            ty: BindingType::SampledTexture,
        },
        BindGroupLayoutEntry {
            binding: 1,
            visibility: Visibility::Fragment,
            ty: BindingType::TextureSampler,
        },
        BindGroupLayoutEntry {
            binding: 2,
            visibility: Visibility::Fragment,
            ty: BindingType::SampledTexture,
        },
        BindGroupLayoutEntry {
            binding: 3,
            visibility: Visibility::Fragment,
            ty: BindingType::TextureSampler,
        },
    ]
}

/// Build the bind group layout every material's textures are wired to.
pub fn material_bind_group_layout() -> (r: BindGroupLayout)
    ensures
        r@ == material_layout_entries(),
{
    let mut entries: Vec<BindGroupLayoutEntry> = Vec::new();
    entries.push(
        BindGroupLayoutEntry {
            binding: 0,
            visibility: Visibility::Fragment,
            ty: BindingType::SampledTexture,
        },
    );
    entries.push(
        BindGroupLayoutEntry {
            binding: 1,
            visibility: Visibility::Fragment,
            ty: BindingType::TextureSampler,
        },
    );
    entries.push(
        BindGroupLayoutEntry {
            binding: 2,
            visibility: Visibility::Fragment,
            ty: BindingType::SampledTexture,
        },
    );
    entries.push(
        BindGroupLayoutEntry {
            binding: 3,
            visibility: Visibility::Fragment,
            ty: BindingType::TextureSampler,
        },
    );
    proof {
        assert(entries@ =~= material_layout_entries());
    }
    BindGroupLayout { entries }
}

/// The entries a material wires into that layout, slot by slot: diffuse
/// view, diffuse sampler, normal view, normal sampler.
pub open spec fn material_bind_group_entries() -> Seq<BindGroupEntry> {
    seq![
        BindGroupEntry {
            binding: 0,
            resource: BindingResource::TextureView(TexRole::Diffuse),
        },
        BindGroupEntry { binding: 1, resource: BindingResource::Sampler(TexRole::Diffuse) },
        BindGroupEntry { binding: 2, resource: BindingResource::TextureView(TexRole::Normal) },
        BindGroupEntry { binding: 3, resource: BindingResource::Sampler(TexRole::Normal) },
    ]
}

/// A material: its name, its diffuse and normal textures, and the bind
/// group tying both texture pairs to binding slots 0 through 3.  Immutable
/// after construction.
pub struct Material {
    pub name: String,
    pub diffuse_texture: Texture,
    pub normal_texture: Texture,
    pub bind_group: BindGroup,
}

/// The mathematical value of a `Material`.
#[verifier::ext_equal]
pub ghost struct MaterialView {
    pub name: Seq<char>,
    pub diffuse_texture: TextureView,
    pub normal_texture: TextureView,
    pub bind_group: Seq<BindGroupEntry>,
}

impl View for Material {
    type V = MaterialView;

    open spec fn view(&self) -> MaterialView {
        MaterialView {
            name: self.name@,
            diffuse_texture: self.diffuse_texture@,
            normal_texture: self.normal_texture@,
            bind_group: self.bind_group@,
        }
    }
}

impl Material {
    /// Tie a loaded diffuse/normal texture pair into a material whose bind
    /// group fills the material layout's four slots in order.
    pub fn new(
        name: &str,
        diffuse_texture: Texture,
        normal_texture: Texture,
        layout: &BindGroupLayout,
    ) -> (r: Material)
        requires
            diffuse_texture.wf(),
            !diffuse_texture.is_normal_map,
            normal_texture.wf(),
            normal_texture.is_normal_map,
            layout@ == material_layout_entries(),
        ensures
            r.name@ == name@,
            r.diffuse_texture == diffuse_texture,
            r.normal_texture == normal_texture,
            r.bind_group@ == material_bind_group_entries(),
    {
        let mut entries: Vec<BindGroupEntry> = Vec::new();
        entries.push(
            BindGroupEntry {
                binding: 0,
                resource: BindingResource::TextureView(TexRole::Diffuse),
            },
        );
        entries.push(
            BindGroupEntry { binding: 1, resource: BindingResource::Sampler(TexRole::Diffuse) },
        );
        entries.push(
            BindGroupEntry {
                binding: 2,
                resource: BindingResource::TextureView(TexRole::Normal),
            },
        );
        entries.push(
            BindGroupEntry { binding: 3, resource: BindingResource::Sampler(TexRole::Normal) },
        );
        proof {
            assert(entries@ =~= material_bind_group_entries());
        }
        Material {
            name: String::from_str(name),
            diffuse_texture,
            normal_texture,
            bind_group: BindGroup { entries },
        }
    }
}

} // verus!
