use vstd::prelude::*;
use crate::colour::Rgb;
use crate::table::KeyedTable;

verus! {

/// How a surface sends a bounce ray on.
#[derive(Clone, Copy, Debug, PartialEq, Eq, Structural)]
pub enum MaterialKind {
    /// Scattered around the surface normal.
    Diffuse,
    /// Reflected about the surface normal.
    Mirror,
}

/// A surface's colour and how much light it absorbs (`absorbed` is a
/// fraction of `CHANNEL_ONE`: none is a perfect reflector, all is black).
#[derive(Clone, Debug)]
pub struct Material {
    pub name: String,
    pub diffuse: Rgb,
    pub absorbed: u16,
    pub kind: MaterialKind,
}

/// The reddish diffuse material that a missing name falls back to.
pub open spec fn is_default_material(m: Material) -> bool {
    &&& m.name@ == "default"@
    &&& m.diffuse == (Rgb { r: 0xFFFF, g: 0, b: 0 })
    &&& m.absorbed == 19661
    &&& m.kind == MaterialKind::Diffuse
}

/// The light a surface of this material sends back: `diffuse * (1 - absorbed)`.
pub open spec fn spec_reflectance(m: Material) -> Rgb {
    m.diffuse.spec_scale(0xFFFF - m.absorbed as int)
}

/// The kind that a material's name selects: only "mirror" reflects.
pub open spec fn kind_of_name(name: Seq<char>) -> MaterialKind {
    if name == "mirror"@ {
        MaterialKind::Mirror
    } else {
        MaterialKind::Diffuse
    }
}

fn copy_material(m: &Material) -> (r: Material)
    ensures
        r == *m,
{
    Material { name: m.name.clone(), diffuse: m.diffuse, absorbed: m.absorbed, kind: m.kind }
}

impl Material {
    /// The colour this surface contributes at one bounce.
    pub fn reflectance(&self) -> (r: Rgb)
        ensures
            r == spec_reflectance(*self),
    {
        self.diffuse.scale(0xFFFF - self.absorbed)
    }

    /// The kind for a material of the given name.
    pub fn kind_for_name(name: &str) -> (r: MaterialKind)
        ensures
            r == kind_of_name(name@),
    {
        if name.to_owned() == "mirror".to_owned() {
            MaterialKind::Mirror
        } else {
            MaterialKind::Diffuse
        }
    }
}

/// Materials by name. Each stored material carries its key as its name.
pub struct MaterialBank {
    source: String,
    materials: KeyedTable<Material>,
}

impl View for MaterialBank {
    type V = Map<Seq<char>, Material>;

    closed spec fn view(&self) -> Map<Seq<char>, Material> {
        self.materials@
    }
}

impl MaterialBank {
    pub closed spec fn wf(&self) -> bool {
        &&& self.materials.wf()
        &&& forall|k: Seq<char>| #[trigger] self.materials@.contains_key(k) ==> self.materials@[k].name@ == k
    }

    /// Where the bank's entries come from.
    pub closed spec fn source_name(&self) -> Seq<char> {
        self.source@
    }

    /// An empty bank; `source` names where its materials come from.
    pub fn new(source: String) -> (r: MaterialBank)
        ensures
            r.wf(),
            r@ == Map::<Seq<char>, Material>::empty(),
            r.source_name() == source@,
    {
        MaterialBank { source, materials: KeyedTable::new() }
    }

    /// Where the materials come from.
    pub fn source(&self) -> (r: &String)
        ensures
            r@ == self.source_name(),
    {
        &self.source
    }

    /// Stores `material` under `key`, renamed to `key`, replacing any material of that name.
    pub fn insert(&mut self, key: String, material: Material)
        requires
            old(self).wf(),
        ensures
            final(self).wf(),
            final(self).source_name() == old(self).source_name(),
            final(self)@.dom() == old(self)@.dom().insert(key@),
            final(self)@[key@].name@ == key@,
            final(self)@[key@].diffuse == material.diffuse,
            final(self)@[key@].absorbed == material.absorbed,
            final(self)@[key@].kind == material.kind,
            forall|k: Seq<char>| k != key@ && #[trigger] old(self)@.contains_key(k)
                ==> final(self)@[k] == old(self)@[k],
    {
        let mut m = material;
        m.name = key.clone();
        self.materials.insert(key, m);
        assert(self@.dom() =~= old(self)@.dom().insert(m.name@));
    }

    /// Whether a material of that name is stored.
    pub fn contains(&self, name: &str) -> (r: bool)
        requires
            self.wf(),
        ensures
            r == self@.contains_key(name@),
    {
        self.materials.get(name).is_some()
    }

    /// The material of that name, or the default material where none is stored.
    pub fn get(&self, name: &str) -> (r: Material)
        requires
            self.wf(),
        ensures
            self@.contains_key(name@) ==> r == self@[name@],
            !self@.contains_key(name@) ==> is_default_material(r),
    {
        match self.materials.get(name) {
            Some(m) => copy_material(m),
            None => MaterialBank::get_default(),
        }
    }

    /// The material used where a name is missing: red, absorbing three tenths.
    pub fn get_default() -> (r: Material)
        ensures
            is_default_material(r),
    {
        Material {
            name: "default".to_owned(),
            diffuse: Rgb { r: 0xFFFF, g: 0, b: 0 },
            absorbed: 19661,
            kind: MaterialKind::Diffuse,
        }
    }
}

} // verus!
