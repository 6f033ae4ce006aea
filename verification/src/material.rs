//! An engine-integrated form of the tunable material: the same
//! shading parameters, kept both as named fields and in two flat arrays laid
//! out to match the shader's expectation, with the distance-shading channel
//! expanded into one toggle per channel.

use vstd::prelude::*;
use vstd::pervasive::VecAdditionalExecFns;
use crate::attributes::Vec3;

verus! {

/// Which HSV channel distance shading modulates.
#[derive(Debug, Clone, Copy, PartialEq, Eq, Structural)]
pub enum DistanceShadingChannel {
    Hue,
    Saturation,
    Value,
    NoChannel,
}

/// The material: shading parameters as named fields, mirrored into the flat
/// arrays the shader reads.
#[derive(Debug, Clone, PartialEq, Eq)]
pub struct MyMaterial {
    pub camera_position: Vec3,
    pub color: Vec3,
    pub model_size: i32,
    pub distance_shading_power: i32,
    pub distance_shading_constrict: i32,
    pub toon_factor: i32,
    pub distance_shading_channel_hue: bool,
    pub distance_shading_channel_saturation: bool,
    pub distance_shading_channel_value: bool,
    /// Carefully laid out by struct to match shader expectation.
    pub floats: Vec<i32>,
    /// Carefully laid out by struct to match shader expectation.
    pub vectors: Vec<i32>,
}

/// The channel the three toggles encode, highest-precedence first.
pub open spec fn spec_channel_of(m: MyMaterial) -> DistanceShadingChannel {
    if m.distance_shading_channel_hue {
        DistanceShadingChannel::Hue
    } else if m.distance_shading_channel_saturation {
        DistanceShadingChannel::Saturation
    } else if m.distance_shading_channel_value {
        DistanceShadingChannel::Value
    } else {
        DistanceShadingChannel::NoChannel
    }
}

impl MyMaterial {
    /// The mirror invariant: the flat arrays have the shader's layout and
    /// agree with the named fields they mirror. The first float slot is the
    /// uploaded model size, which only [MyMaterial::set_model_size] writes.
    pub open spec fn wf(self) -> bool {
        &&& self.floats@.len() == 4
        &&& self.vectors@.len() == 7
        &&& self.vectors@[0] == self.camera_position.x
        &&& self.vectors@[1] == self.camera_position.y
        &&& self.vectors@[2] == self.camera_position.z
        &&& self.vectors@[4] == self.color.x
        &&& self.vectors@[5] == self.color.y
        &&& self.vectors@[6] == self.color.z
        &&& self.floats@[1] == self.distance_shading_power
        &&& self.floats@[2] == self.distance_shading_constrict
        &&& self.floats@[3] == self.toon_factor
    }

    pub fn set_camera_position(&mut self, new: Vec3)
        requires
            old(self).wf(),
        ensures
            final(self).wf(),
            final(self).camera_position == new,
            final(self).vectors@ == old(self).vectors@.update(0, new.x).update(1, new.y).update(
                2,
                new.z,
            ),
            final(self).color == old(self).color,
            final(self).model_size == old(self).model_size,
            final(self).distance_shading_power == old(self).distance_shading_power,
            final(self).distance_shading_constrict == old(self).distance_shading_constrict,
            final(self).toon_factor == old(self).toon_factor,
            final(self).distance_shading_channel_hue == old(self).distance_shading_channel_hue,
            final(self).distance_shading_channel_saturation == old(
                self,
            ).distance_shading_channel_saturation,
            final(self).distance_shading_channel_value == old(self).distance_shading_channel_value,
            final(self).floats == old(self).floats,
    {
        self.camera_position = new;
        self.vectors.set(0, new.x);
        self.vectors.set(1, new.y);
        self.vectors.set(2, new.z);
    }

    pub fn set_color(&mut self, new: Vec3)
        requires
            old(self).wf(),
        ensures
            final(self).wf(),
            final(self).color == new,
            final(self).vectors@ == old(self).vectors@.update(4, new.x).update(5, new.y).update(
                6,
                new.z,
            ),
            final(self).camera_position == old(self).camera_position,
            final(self).model_size == old(self).model_size,
            final(self).distance_shading_power == old(self).distance_shading_power,
            final(self).distance_shading_constrict == old(self).distance_shading_constrict,
            final(self).toon_factor == old(self).toon_factor,
            final(self).distance_shading_channel_hue == old(self).distance_shading_channel_hue,
            final(self).distance_shading_channel_saturation == old(
                self,
            ).distance_shading_channel_saturation,
            final(self).distance_shading_channel_value == old(self).distance_shading_channel_value,
            final(self).floats == old(self).floats,
    {
        self.color = new;
        self.vectors.set(4, new.x);
        self.vectors.set(5, new.y);
        self.vectors.set(6, new.z);
    }

    /// Writes the uploaded model-size slot; the named field is not touched.
    pub fn set_model_size(&mut self, new: i32)
        requires
            old(self).wf(),
        ensures
            final(self).wf(),
            final(self).floats@ == old(self).floats@.update(0, new),
            *final(self) == (MyMaterial { floats: final(self).floats, ..*old(self) }),
    {
        self.floats.set(0, new);
    }

    pub fn set_distance_shading_power(&mut self, new: i32)
        requires
            old(self).wf(),
        ensures
            final(self).wf(),
            final(self).distance_shading_power == new,
            final(self).floats@ == old(self).floats@.update(1, new),
            *final(self) == (MyMaterial {
                distance_shading_power: new,
                floats: final(self).floats,
                ..*old(self)
            }),
    {
        self.distance_shading_power = new;
        self.floats.set(1, new);
    }

    pub fn set_distance_shading_constrict(&mut self, new: i32)
        requires
            old(self).wf(),
        ensures
            final(self).wf(),
            final(self).distance_shading_constrict == new,
            final(self).floats@ == old(self).floats@.update(2, new),
            *final(self) == (MyMaterial {
                distance_shading_constrict: new,
                floats: final(self).floats,
                ..*old(self)
            }),
    {
        self.distance_shading_constrict = new;
        self.floats.set(2, new);
    }

    pub fn set_toon_factor(&mut self, new: i32)
        requires
            old(self).wf(),
        ensures
            final(self).wf(),
            final(self).toon_factor == new,
            final(self).floats@ == old(self).floats@.update(3, new),
            *final(self) == (MyMaterial { toon_factor: new, floats: final(self).floats, ..*old(self) }),
    {
        self.toon_factor = new;
        self.floats.set(3, new);
    }

    /// Select the distance-shading channel: exactly the chosen channel's
    /// toggle is raised.
    pub fn set_distance_shading_channel(&mut self, channel: DistanceShadingChannel)
        requires
            old(self).wf(),
        ensures
            final(self).wf(),
            final(self).distance_shading_channel_hue == (channel is Hue),
            final(self).distance_shading_channel_saturation == (channel is Saturation),
            final(self).distance_shading_channel_value == (channel is Value),
            spec_channel_of(*final(self)) == channel,
            *final(self) == (MyMaterial {
                distance_shading_channel_hue: final(self).distance_shading_channel_hue,
                distance_shading_channel_saturation: final(self).distance_shading_channel_saturation,
                distance_shading_channel_value: final(self).distance_shading_channel_value,
                ..*old(self)
            }),
    {
        self.distance_shading_channel_hue = false;
        self.distance_shading_channel_saturation = false;
        self.distance_shading_channel_value = false;
        match channel {
            DistanceShadingChannel::Hue => self.distance_shading_channel_hue = true,
            DistanceShadingChannel::Saturation => self.distance_shading_channel_saturation = true,
            DistanceShadingChannel::Value => self.distance_shading_channel_value = true,
            DistanceShadingChannel::NoChannel => {},
        }
    }

    pub fn get_color(&self) -> (r: Vec3)
        ensures
            r == self.color,
    {
        self.color
    }

    pub fn get_distance_shading_power(&self) -> (r: i32)
        ensures
            r == self.distance_shading_power,
    {
        self.distance_shading_power
    }

    pub fn get_distance_shading_constrict(&self) -> (r: i32)
        ensures
            r == self.distance_shading_constrict,
    {
        self.distance_shading_constrict
    }

    pub fn get_toon_factor(&self) -> (r: i32)
        ensures
            r == self.toon_factor,
    {
        self.toon_factor
    }

    /// The selected channel, reading the toggles highest-precedence first.
    pub fn get_distance_shading_channel(&self) -> (r: DistanceShadingChannel)
        ensures
            r == spec_channel_of(*self),
    {
        if self.distance_shading_channel_hue {
            return DistanceShadingChannel::Hue;
        }
        if self.distance_shading_channel_saturation {
            return DistanceShadingChannel::Saturation;
        }
        if self.distance_shading_channel_value {
            return DistanceShadingChannel::Value;
        }
        DistanceShadingChannel::NoChannel
    }
}

impl Default for MyMaterial {
    /// The default material: value-channel shading raised, a neutral base
    /// color, and the default shading factors, mirrored into the arrays.
    fn default() -> (m: MyMaterial)
        ensures
            m.wf(),
            m.camera_position == (Vec3 { x: 0, y: 0, z: 0 }),
            m.color == (Vec3 { x: 1000, y: 560, z: 720 }),
            m.model_size == 0,
            m.distance_shading_power == 800,
            m.distance_shading_constrict == 200,
            m.toon_factor == 800,
            !m.distance_shading_channel_hue,
            !m.distance_shading_channel_saturation,
            m.distance_shading_channel_value,
            m.floats@ == seq![0i32, 800i32, 200i32, 800i32],
            m.vectors@ == seq![0i32, 0i32, 0i32, 0i32, 1000i32, 560i32, 720i32],
    {
        let mut floats: Vec<i32> = Vec::new();
        floats.push(0);
        floats.push(0);
        floats.push(200);
        floats.push(800);
        let mut vectors: Vec<i32> = Vec::new();
        let mut k: usize = 0;
        while k < 7
            invariant
                0 <= k <= 7,
                vectors@.len() == k,
                forall|i: int| 0 <= i < k ==> vectors@[i] == 0i32,
            decreases 7 - k,
        {
            vectors.push(0);
            k += 1;
        }
        let mut material = MyMaterial {
            camera_position: Vec3 { x: 0, y: 0, z: 0 },
            color: Vec3 { x: 0, y: 0, z: 0 },
            model_size: 0,
            distance_shading_power: 0,
            distance_shading_constrict: 200,
            toon_factor: 800,
            distance_shading_channel_hue: false,
            distance_shading_channel_saturation: false,
            distance_shading_channel_value: true,
            floats,
            vectors,
        };
        proof {
            assert(material.wf());
        }
        material.set_color(Vec3 { x: 1000, y: 560, z: 720 });
        material.set_distance_shading_power(800);
        proof {
            assert(material.floats@ =~= seq![0i32, 800i32, 200i32, 800i32]);
            assert(material.vectors@ =~= seq![0i32, 0i32, 0i32, 0i32, 1000i32, 560i32, 720i32]);
        }
        material
    }
}

} // verus!
