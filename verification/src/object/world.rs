//! The scene: all its objects and its background.

use crate::object::aabb::Aabb;
use crate::object::hittable::Hittable;
use crate::object::nearest::{
    bound_after, is_first_nearest, lemma_nearest_of_agree, lemma_nearest_of_comes_from,
    lemma_nearest_of_is_first_nearest,
    nearest_of, restricted,
};
use crate::object::record::HitRecord;
use crate::render::skybox::ColorGradientSkyBox;
use crate::utils::ray::Ray;
use crate::utils::sampling::is_fraction;
use crate::utils::scalar::Scalar;
use crate::utils::vec3::{Color, Vec3};
use vstd::prelude::*;

verus! {

/// The objects of a scene, in the order in which they were added, and the
/// background behind them.
#[derive(Debug)]
pub struct World {
    pub objects: Vec<Hittable>,
    /// The background; daylight when none is set.
    pub skybox: Option<ColorGradientSkyBox>,
    /// The box round all objects, as of the last `update_metadata`.
    pub bounds: Option<Aabb>,
}

impl View for World {
    type V = Seq<Hittable>;

    open spec fn view(&self) -> Seq<Hittable> {
        self.objects@
    }
}

impl World {
    /// The empty scene under daylight.
    pub fn new() -> (w: World)
        ensures
            w@ == Seq::<Hittable>::empty(),
            w.skybox is None,
            w.bounds is None,
            w.metadata_current(),
    {
        World { objects: Vec::new(), skybox: None, bounds: None }
    }

    /// Adds `obj` behind the objects that are there. The box round all
    /// objects is left as it was: it is out of date until the next
    /// `update_metadata`.
    pub fn add_hittable(&mut self, obj: Hittable)
        ensures
            final(self)@ == old(self)@.push(obj),
            final(self).skybox == old(self).skybox,
            final(self).bounds == old(self).bounds,
    {
        self.objects.push(obj);
    }

    /// Replaces the background.
    pub fn set_skybox(&mut self, skybox: ColorGradientSkyBox)
        ensures
            final(self)@ == old(self)@,
            final(self).skybox == Some(skybox),
            final(self).bounds == old(self).bounds,
    {
        self.skybox = Some(skybox);
    }

    /// The background in use.
    pub open spec fn sky(&self) -> ColorGradientSkyBox {
        match self.skybox {
            Some(s) => s,
            None => ColorGradientSkyBox::spec_daylight(),
        }
    }

    pub open spec fn spec_background(&self, dir: Vec3) -> Color {
        self.sky().spec_get_color(dir)
    }

    /// The light that arrives from direction `dir` when nothing is hit. It
    /// lies between the two colours of the background, if those have no
    /// negative component; under daylight, red is at least 0.5, green at
    /// least 0.7, and blue is 1.
    pub fn background(&self, dir: Vec3) -> (c: Color)
        ensures
            c == self.spec_background(dir),
            self.sky().is_visible() ==> self.sky().holds(c),
            self.skybox is None ==> 500_000 <= c.0.raw && 700_000 <= c.1.raw && c.2.raw
                == 1_000_000,
    {
        proof {
            ColorGradientSkyBox::lemma_daylight_is_bright(dir);
        }
        match self.skybox {
            Some(s) => s.get_color(dir),
            None => ColorGradientSkyBox::daylight().get_color(dir),
        }
    }

    /// `samples` holds one draw from `[0, 1)` for each object.
    pub open spec fn admits(&self, samples: Seq<Scalar>) -> bool {
        samples.len() == self@.len() && forall|i: int|
            0 <= i < samples.len() ==> is_fraction(#[trigger] samples[i])
    }

    /// What object `i` reports for `ray` between `tmin` and `bound`, with
    /// draw `i` of `samples`.
    pub open spec fn object_hits(&self, ray: Ray, tmin: Scalar, samples: Seq<Scalar>) -> spec_fn(
        int,
        Scalar,
    ) -> Option<HitRecord> {
        |i: int, bound: Scalar| self@[i].spec_hit(ray, tmin, bound, samples[i])
    }

    /// Where `ray` first hits the scene between `tmin` and `tmax`, when
    /// object `i` consumes draw `i` of `samples`: the objects are tested in
    /// turn, each between `tmin` and the nearest hit found before it.
    pub open spec fn spec_hit(&self, ray: Ray, tmin: Scalar, tmax: Scalar, samples: Seq<Scalar>) -> Option<
        HitRecord,
    > {
        nearest_of(self.object_hits(ray, tmin, samples), self@.len(), tmax)
    }

    /// Tests `ray` against every object, each between `tmin` and the nearest
    /// hit found so far, and reports the nearest hit. An empty scene reports
    /// none. In a scene of surfaces nothing is drawn, and the result is the
    /// same whatever draws are supposed.
    pub fn hit(&self, ray: &Ray, tmin: Scalar, tmax: Scalar) -> (res: Option<HitRecord>)
        ensures
            exists|samples: Seq<Scalar>|
                self.admits(samples) && res == #[trigger] self.spec_hit(*ray, tmin, tmax, samples),
            self.is_solid() ==> forall|samples: Seq<Scalar>|
                res == #[trigger] self.spec_hit(*ray, tmin, tmax, samples),
    {
        let ghost mut samples: Seq<Scalar> = Seq::empty();
        let mut best: Option<HitRecord> = None;
        let mut closest = tmax;
        let mut i: usize = 0;
        while i < self.objects.len()
            invariant
                i <= self.objects.len(),
                samples.len() == i,
                forall|j: int| 0 <= j < i ==> is_fraction(#[trigger] samples[j]),
                best == nearest_of(self.object_hits(*ray, tmin, samples), i as nat, tmax),
                closest == bound_after(best, tmax),
            decreases self.objects.len() - i,
        {
            let found = self.objects[i].hit(ray, tmin, closest);
            proof {
                let s = choose|s: Scalar|
                    is_fraction(s) && found == #[trigger] self@[i as int].spec_hit(
                        *ray,
                        tmin,
                        closest,
                        s,
                    );
                let longer = samples.push(s);
                lemma_nearest_of_agree(
                    self.object_hits(*ray, tmin, samples),
                    self.object_hits(*ray, tmin, longer),
                    i as nat,
                    tmax,
                );
                samples = longer;
            }
            match found {
                Some(h) => {
                    closest = h.t;
                    best = Some(h);
                },
                None => {},
            }
            i = i + 1;
        }
        assert(self.admits(samples) && best == self.spec_hit(*ray, tmin, tmax, samples));
        proof {
            if self.is_solid() {
                assert forall|other: Seq<Scalar>|
                    best == #[trigger] self.spec_hit(*ray, tmin, tmax, other) by {
                    self.lemma_solid_ignores_samples(*ray, tmin, tmax, samples, other);
                }
            }
        }
        best
    }
}

impl World {
    /// No object of the scene holds a medium.
    pub open spec fn is_solid(&self) -> bool {
        forall|i: int| 0 <= i < self@.len() ==> !(#[trigger] self@[i]).spec_is_random()
    }

    /// What each object alone reports for `ray` between `tmin` and `tmax`.
    pub open spec fn single_hits(
        &self,
        ray: Ray,
        tmin: Scalar,
        tmax: Scalar,
        samples: Seq<Scalar>,
    ) -> Seq<Option<HitRecord>> {
        Seq::new(self@.len(), |i: int| self@[i].spec_hit(ray, tmin, tmax, samples[i]))
    }

    /// In a scene of surfaces, the hit that the scene reports is the nearest
    /// of the hits that its objects report one by one between `tmin` and
    /// `tmax`, and the first of them among equally near ones; the scene
    /// reports none exactly when no object reports one.
    pub proof fn lemma_hit_is_nearest(
        &self,
        ray: Ray,
        tmin: Scalar,
        tmax: Scalar,
        samples: Seq<Scalar>,
    )
        requires
            self.is_solid(),
        ensures
            is_first_nearest(
                self.single_hits(ray, tmin, tmax, samples),
                self.spec_hit(ray, tmin, tmax, samples),
            ),
    {
        let hits = self.object_hits(ray, tmin, samples);
        assert forall|i: int, b: Scalar|
            0 <= i < self@.len() && b.raw <= tmax.raw implies #[trigger] hits(i, b) == restricted(
            hits(i, tmax),
            b,
        ) by {
            self@[i].lemma_surface_restricts(ray, tmin, tmax, b, samples[i]);
        }
        lemma_nearest_of_is_first_nearest(hits, self@.len(), tmax);
        assert(Seq::new(self@.len(), |i: int| hits(i, tmax)) =~= self.single_hits(
            ray,
            tmin,
            tmax,
            samples,
        ));
    }

    /// In a scene of surfaces, what a ray hits does not depend on the draws.
    pub proof fn lemma_solid_ignores_samples(
        &self,
        ray: Ray,
        tmin: Scalar,
        tmax: Scalar,
        s1: Seq<Scalar>,
        s2: Seq<Scalar>,
    )
        requires
            self.is_solid(),
        ensures
            self.spec_hit(ray, tmin, tmax, s1) == self.spec_hit(ray, tmin, tmax, s2),
    {
        let f = self.object_hits(ray, tmin, s1);
        let g = self.object_hits(ray, tmin, s2);
        assert forall|i: int, b: Scalar| 0 <= i < self@.len() implies #[trigger] f(i, b) == g(
            i,
            b,
        ) by {
            self@[i].lemma_surface_ignores_sample(ray, tmin, b, s1[i], s2[i]);
        }
        lemma_nearest_of_agree(f, g, self@.len(), tmax);
    }
}

impl World {
    /// No object of the scene sends out light of its own.
    pub open spec fn emits_nothing(&self) -> bool {
        forall|i: int| 0 <= i < self@.len() ==> (#[trigger] self@[i]).emits_nothing()
    }

    /// A hit in a scene that sends out no light reports a material that sends
    /// out none.
    pub proof fn lemma_hit_material(
        &self,
        ray: Ray,
        tmin: Scalar,
        tmax: Scalar,
        samples: Seq<Scalar>,
    )
        requires
            self.emits_nothing(),
        ensures
            self.spec_hit(ray, tmin, tmax, samples) matches Some(h) ==> h.mat.emits_nothing(),
    {
        let hits = self.object_hits(ray, tmin, samples);
        lemma_nearest_of_comes_from(hits, self@.len(), tmax);
        if let Some(h) = self.spec_hit(ray, tmin, tmax, samples) {
            let (i, x) = choose|i: int, x: Scalar|
                0 <= i < self@.len() && #[trigger] hits(i, x) == Some(h);
            self@[i].lemma_hit_material(ray, tmin, x, samples[i]);
        }
    }
}

impl World {
    /// The box round the boxes of all of `objs`; none for no objects.
    pub open spec fn spec_bounds(objs: Seq<Hittable>) -> Option<Aabb>
        decreases objs.len(),
    {
        if objs.len() == 0 {
            None
        } else {
            let last = objs.last().spec_bounding_box();
            match Self::spec_bounds(objs.drop_last()) {
                Some(b) => Some(b.spec_union(last)),
                None => Some(last),
            }
        }
    }

    /// The box kept in the scene is the box round its objects.
    pub open spec fn metadata_current(&self) -> bool {
        self.bounds == Self::spec_bounds(self@)
    }

    /// Brings the box round all objects up to date. To be called when all
    /// objects have been added.
    pub fn update_metadata(&mut self)
        ensures
            final(self)@ == old(self)@,
            final(self).skybox == old(self).skybox,
            final(self).metadata_current(),
    {
        let mut acc: Option<Aabb> = None;
        let mut i: usize = 0;
        while i < self.objects.len()
            invariant
                i <= self.objects.len(),
                acc == Self::spec_bounds(self@.take(i as int)),
            decreases self.objects.len() - i,
        {
            let b = self.objects[i].bounding_box();
            assert(self@.take(i + 1).drop_last() =~= self@.take(i as int));
            acc = match acc {
                Some(a) => Some(a.union(b)),
                None => Some(b),
            };
            i = i + 1;
        }
        assert(self@.take(i as int) =~= self@);
        self.bounds = acc;
    }

    /// The box round all objects holds the box of each of them, and there is
    /// none only for no objects.
    pub proof fn lemma_bounds_enclose(objs: Seq<Hittable>)
        ensures
            Self::spec_bounds(objs) is None <==> objs.len() == 0,
            Self::spec_bounds(objs) matches Some(b) ==> forall|i: int|
                0 <= i < objs.len() ==> b.encloses((#[trigger] objs[i]).spec_bounding_box()),
        decreases objs.len(),
    {
        if objs.len() > 0 {
            let front = objs.drop_last();
            let last = objs.last().spec_bounding_box();
            Self::lemma_bounds_enclose(front);
            match Self::spec_bounds(front) {
                Some(b) => {
                    assert forall|i: int| 0 <= i < objs.len() implies b.spec_union(last).encloses(
                        (#[trigger] objs[i]).spec_bounding_box(),
                    ) by {
                        if i < front.len() {
                            assert(front[i] == objs[i]);
                            Aabb::lemma_union_encloses(b, last, objs[i].spec_bounding_box());
                        } else {
                            Aabb::lemma_union_encloses(b, last, last);
                        }
                    }
                },
                None => {
                    Aabb::lemma_union_encloses(last, last, last);
                },
            }
        }
    }
}

} // verus!
