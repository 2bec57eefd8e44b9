use vstd::prelude::*;
use crate::table::KeyedTable;

verus! {

/// Image size, sampling and bounce budget of a render.
#[derive(Clone, Debug)]
pub struct QualityPreset {
    pub name: String,
    pub image_width: u32,
    pub image_height: u32,
    pub samples_per_pixel: usize,
    pub max_bounces: u32,
}

/// The preset that a missing preset name falls back to.
pub open spec fn is_default_preset(p: QualityPreset) -> bool {
    &&& p.name@ == "default"@
    &&& p.image_width == 640
    &&& p.image_height == 480
    &&& p.samples_per_pixel == 8
    &&& p.max_bounces == 8
}

/// The heavier built-in preset that `select_preset` falls back to.
pub open spec fn is_fallback_preset(p: QualityPreset) -> bool {
    &&& p.name@ == "default"@
    &&& p.image_width == 640
    &&& p.image_height == 480
    &&& p.samples_per_pixel == 16
    &&& p.max_bounces == 16
}

/// Two presets agree on everything but their names.
pub open spec fn same_settings(a: QualityPreset, b: QualityPreset) -> bool {
    &&& a.image_width == b.image_width
    &&& a.image_height == b.image_height
    &&& a.samples_per_pixel == b.samples_per_pixel
    &&& a.max_bounces == b.max_bounces
}

/// The number of primary rays of a render: one per pixel and sample.
pub open spec fn spec_ray_count(p: QualityPreset) -> int {
    p.image_width as int * p.image_height as int * p.samples_per_pixel as int
}

fn copy_preset(p: &QualityPreset) -> (r: QualityPreset)
    ensures
        r == *p,
{
    QualityPreset {
        name: p.name.clone(),
        image_width: p.image_width,
        image_height: p.image_height,
        samples_per_pixel: p.samples_per_pixel,
        max_bounces: p.max_bounces,
    }
}

impl QualityPreset {
    /// Width times height times samples per pixel, or `None` where that
    /// does not fit in a `usize`.
    pub fn ray_count(&self) -> (r: Option<usize>)
        ensures
            match r {
                Some(n) => n == spec_ray_count(*self),
                None => spec_ray_count(*self) > usize::MAX,
            },
    {
        proof {
            let (w, h) = (self.image_width as int, self.image_height as int);
            assert(0 <= w * h <= 0xFFFF_FFFF * 0xFFFF_FFFF) by (nonlinear_arith)
                requires 0 <= w <= 0xFFFF_FFFF, 0 <= h <= 0xFFFF_FFFF;
        }
        let pixels: u64 = (self.image_width as u64) * (self.image_height as u64);
        if pixels > usize::MAX as u64 {
            let ghost (w, h, s) = (
                self.image_width as int,
                self.image_height as int,
                self.samples_per_pixel as int,
            );
            if self.samples_per_pixel == 0 {
                assert(w * h * s == 0) by (nonlinear_arith) requires s == 0;
                return Some(0);
            }
            assert(w * h * s >= w * h) by (nonlinear_arith) requires s >= 1, w * h >= 0;
            return None;
        }
        (pixels as usize).checked_mul(self.samples_per_pixel)
    }
}

/// Quality presets by name. Each stored preset carries its key as its name.
pub struct QualityPresetBank {
    source: String,
    presets: KeyedTable<QualityPreset>,
}

impl View for QualityPresetBank {
    type V = Map<Seq<char>, QualityPreset>;

    closed spec fn view(&self) -> Map<Seq<char>, QualityPreset> {
        self.presets@
    }
}

impl QualityPresetBank {
    pub closed spec fn wf(&self) -> bool {
        &&& self.presets.wf()
        &&& forall|k: Seq<char>| #[trigger] self.presets@.contains_key(k) ==> self.presets@[k].name@ == k
    }

    /// Where the bank's entries come from.
    pub closed spec fn source_name(&self) -> Seq<char> {
        self.source@
    }

    /// An empty bank; `source` names where its presets come from.
    pub fn new(source: String) -> (r: QualityPresetBank)
        ensures
            r.wf(),
            r@ == Map::<Seq<char>, QualityPreset>::empty(),
            r.source_name() == source@,
    {
        QualityPresetBank { source, presets: KeyedTable::new() }
    }

    /// Where the presets come from.
    pub fn source(&self) -> (r: &String)
        ensures
            r@ == self.source_name(),
    {
        &self.source
    }

    /// Stores `preset` under `key`, renamed to `key`, replacing any preset of that name.
    pub fn insert(&mut self, key: String, preset: QualityPreset)
        requires
            old(self).wf(),
        ensures
            final(self).wf(),
            final(self).source_name() == old(self).source_name(),
            final(self)@.dom() == old(self)@.dom().insert(key@),
            final(self)@[key@].name@ == key@,
            same_settings(final(self)@[key@], preset),
            forall|k: Seq<char>| k != key@ && #[trigger] old(self)@.contains_key(k)
                ==> final(self)@[k] == old(self)@[k],
    {
        let mut p = preset;
        p.name = key.clone();
        self.presets.insert(key, p);
        assert(self@.dom() =~= old(self)@.dom().insert(p.name@));
    }

    /// Whether a preset of that name is stored.
    pub fn contains(&self, name: &str) -> (r: bool)
        requires
            self.wf(),
        ensures
            r == self@.contains_key(name@),
    {
        self.presets.get(name).is_some()
    }

    /// The preset of that name, or the default preset where none is stored.
    pub fn get(&self, name: &str) -> (r: QualityPreset)
        requires
            self.wf(),
        ensures
            self@.contains_key(name@) ==> r == self@[name@],
            !self@.contains_key(name@) ==> is_default_preset(r),
    {
        match self.presets.get(name) {
            Some(p) => copy_preset(p),
            None => QualityPresetBank::get_default(),
        }
    }

    /// The preset used where a name is missing: 640 by 480, eight samples
    /// per pixel, eight bounces.
    pub fn get_default() -> (r: QualityPreset)
        ensures
            is_default_preset(r),
    {
        QualityPreset {
            name: "default".to_owned(),
            image_width: 640,
            image_height: 480,
            samples_per_pixel: 8,
            max_bounces: 8,
        }
    }
}

/// The built-in preset of sixteen samples per pixel and sixteen bounces.
pub fn get_default_preset() -> (r: QualityPreset)
    ensures
        is_fallback_preset(r),
{
    QualityPreset {
        name: "default".to_owned(),
        image_width: 640,
        image_height: 480,
        samples_per_pixel: 16,
        max_bounces: 16,
    }
}

/// The preset of that name, or the built-in sixteen-sample preset where none is stored.
pub fn select_preset(bank: &QualityPresetBank, name: &str) -> (r: QualityPreset)
    requires
        bank.wf(),
    ensures
        bank@.contains_key(name@) ==> r == bank@[name@],
        !bank@.contains_key(name@) ==> is_fallback_preset(r),
{
    if bank.contains(name) {
        bank.get(name)
    } else {
        get_default_preset()
    }
}

} // verus!
