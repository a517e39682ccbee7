use core::marker::PhantomData;
use vstd::prelude::*;
use vstd::std_specs::convert::FromSpec;
use vstd::std_specs::ops::{AddSpec, MulSpec};

verus! {

/// The weights of the score's terms, the goals of the mean-error-squared
/// terms (`*_off`; a goal that is not positive means "no goal"), and the two
/// exclusion radii.
#[derive(Debug, Clone, Copy)]
pub struct ScoreSettings<W> {
    pub mes_linear: W,
    pub mes_x_off: W,
    pub mes_y_off: W,
    pub mes_z_off: W,
    pub mes_torque: W,
    pub mes_x_rot_off: W,
    pub mes_y_rot_off: W,
    pub mes_z_rot_off: W,
    pub avg_linear: W,
    pub avg_torque: W,
    pub min_linear: W,
    pub min_torque: W,
    pub x: W,
    pub y: W,
    pub z: W,
    pub x_rot: W,
    pub y_rot: W,
    pub z_rot: W,
    pub center_of_mass_loss: W,
    pub center_loss: W,
    pub surface_area_score: W,
    pub dimension_loss: W,
    pub cardinality_loss: W,
    pub tube_exclusion_radius: W,
    pub tube_exclusion_loss: W,
    pub thruster_exclusion_radius: W,
    pub thruster_exclusion_loss: W,
    pub thruster_flow_exclusion_loss: W,
}

/// A value behind a switch: the value when on, `off` when off.
pub open spec fn switched<W>(t: (bool, W), off: W) -> W {
    if t.0 {
        t.1
    } else {
        off
    }
}

fn switch<W: Copy>(t: (bool, W), off: W) -> (r: W)
    ensures
        r == switched(t, off),
{
    if t.0 {
        t.1
    } else {
        off
    }
}

/// Score settings where each value carries a switch. A switched-off weight or
/// radius counts as zero; a switched-off goal counts as `-1`, which means "no
/// goal".
#[derive(Debug)]
pub struct ToggleableScoreSettings<W> {
    pub mes_linear: (bool, W),
    pub mes_x_off: (bool, W),
    pub mes_y_off: (bool, W),
    pub mes_z_off: (bool, W),
    pub mes_torque: (bool, W),
    pub mes_x_rot_off: (bool, W),
    pub mes_y_rot_off: (bool, W),
    pub mes_z_rot_off: (bool, W),
    pub avg_linear: (bool, W),
    pub avg_torque: (bool, W),
    pub min_linear: (bool, W),
    pub min_torque: (bool, W),
    pub x: (bool, W),
    pub y: (bool, W),
    pub z: (bool, W),
    pub x_rot: (bool, W),
    pub y_rot: (bool, W),
    pub z_rot: (bool, W),
    pub center_of_mass_loss: (bool, W),
    pub center_loss: (bool, W),
    pub surface_area_loss: (bool, W),
    pub dimension_loss: (bool, W),
    pub tube_exclusion_radius: (bool, W),
    pub tube_exclusion_loss: (bool, W),
    pub thruster_exclusion_radius: (bool, W),
    pub thruster_exclusion_loss: (bool, W),
    pub cardinality_loss: (bool, W),
    pub thruster_flow_exclusion_loss: (bool, W),
}

impl<W: Copy> ToggleableScoreSettings<W> {
    /// Every value of `base` behind a switch: on, but for the torque
    /// mean-error-squared weight and the six single-axis weights.
    pub fn with_default_switches(base: &ScoreSettings<W>) -> (r: ToggleableScoreSettings<W>)
        ensures
            r == Self::default_switches_spec(*base),
    {
        ToggleableScoreSettings {
            mes_linear: (true, base.mes_linear),
            mes_x_off: (true, base.mes_x_off),
            mes_y_off: (true, base.mes_y_off),
            mes_z_off: (true, base.mes_z_off),
            mes_torque: (false, base.mes_torque),
            mes_x_rot_off: (true, base.mes_x_rot_off),
            mes_y_rot_off: (true, base.mes_y_rot_off),
            mes_z_rot_off: (true, base.mes_z_rot_off),
            avg_linear: (true, base.avg_linear),
            avg_torque: (true, base.avg_torque),
            min_linear: (true, base.min_linear),
            min_torque: (true, base.min_torque),
            x: (false, base.x),
            y: (false, base.y),
            z: (false, base.z),
            x_rot: (false, base.x_rot),
            y_rot: (false, base.y_rot),
            z_rot: (false, base.z_rot),
            center_of_mass_loss: (true, base.center_of_mass_loss),
            center_loss: (true, base.center_loss),
            surface_area_loss: (true, base.surface_area_score),
            dimension_loss: (true, base.dimension_loss),
            tube_exclusion_radius: (true, base.tube_exclusion_radius),
            tube_exclusion_loss: (true, base.tube_exclusion_loss),
            thruster_exclusion_radius: (true, base.thruster_exclusion_radius),
            thruster_exclusion_loss: (true, base.thruster_exclusion_loss),
            cardinality_loss: (true, base.cardinality_loss),
            thruster_flow_exclusion_loss: (true, base.thruster_flow_exclusion_loss),
        }
    }

    pub open spec fn default_switches_spec(base: ScoreSettings<W>) -> ToggleableScoreSettings<W> {
        ToggleableScoreSettings {
            mes_linear: (true, base.mes_linear),
            mes_x_off: (true, base.mes_x_off),
            mes_y_off: (true, base.mes_y_off),
            mes_z_off: (true, base.mes_z_off),
            mes_torque: (false, base.mes_torque),
            mes_x_rot_off: (true, base.mes_x_rot_off),
            mes_y_rot_off: (true, base.mes_y_rot_off),
            mes_z_rot_off: (true, base.mes_z_rot_off),
            avg_linear: (true, base.avg_linear),
            avg_torque: (true, base.avg_torque),
            min_linear: (true, base.min_linear),
            min_torque: (true, base.min_torque),
            x: (false, base.x),
            y: (false, base.y),
            z: (false, base.z),
            x_rot: (false, base.x_rot),
            y_rot: (false, base.y_rot),
            z_rot: (false, base.z_rot),
            center_of_mass_loss: (true, base.center_of_mass_loss),
            center_loss: (true, base.center_loss),
            surface_area_loss: (true, base.surface_area_score),
            dimension_loss: (true, base.dimension_loss),
            tube_exclusion_radius: (true, base.tube_exclusion_radius),
            tube_exclusion_loss: (true, base.tube_exclusion_loss),
            thruster_exclusion_radius: (true, base.thruster_exclusion_radius),
            thruster_exclusion_loss: (true, base.thruster_exclusion_loss),
            cardinality_loss: (true, base.cardinality_loss),
            thruster_flow_exclusion_loss: (true, base.thruster_flow_exclusion_loss),
        }
    }

    /// The settings with every switch applied, given the values that stand
    /// for zero and for `-1`.
    pub open spec fn flattened(&self, zero: W, unset: W) -> ScoreSettings<W> {
        ScoreSettings {
            mes_linear: switched(self.mes_linear, zero),
            mes_x_off: switched(self.mes_x_off, unset),
            mes_y_off: switched(self.mes_y_off, unset),
            mes_z_off: switched(self.mes_z_off, unset),
            mes_torque: switched(self.mes_torque, zero),
            mes_x_rot_off: switched(self.mes_x_rot_off, unset),
            mes_y_rot_off: switched(self.mes_y_rot_off, unset),
            mes_z_rot_off: switched(self.mes_z_rot_off, unset),
            avg_linear: switched(self.avg_linear, zero),
            avg_torque: switched(self.avg_torque, zero),
            min_linear: switched(self.min_linear, zero),
            min_torque: switched(self.min_torque, zero),
            x: switched(self.x, zero),
            y: switched(self.y, zero),
            z: switched(self.z, zero),
            x_rot: switched(self.x_rot, zero),
            y_rot: switched(self.y_rot, zero),
            z_rot: switched(self.z_rot, zero),
            center_of_mass_loss: switched(self.center_of_mass_loss, zero),
            center_loss: switched(self.center_loss, zero),
            surface_area_score: switched(self.surface_area_loss, zero),
            dimension_loss: switched(self.dimension_loss, zero),
            tube_exclusion_radius: switched(self.tube_exclusion_radius, zero),
            tube_exclusion_loss: switched(self.tube_exclusion_loss, zero),
            thruster_exclusion_radius: switched(self.thruster_exclusion_radius, zero),
            thruster_exclusion_loss: switched(self.thruster_exclusion_loss, zero),
            cardinality_loss: switched(self.cardinality_loss, zero),
            thruster_flow_exclusion_loss: switched(self.thruster_flow_exclusion_loss, zero),
        }
    }
}

impl<W: From<i8> + Copy> ToggleableScoreSettings<W> {
    /// The settings with every switch applied.
    pub fn flatten(&self) -> (r: ScoreSettings<W>)
        ensures
            W::obeys_from_spec() ==> r == self.flattened(W::from_spec(0i8), W::from_spec(-1i8)),
    {
        let zero = W::from(0i8);
        let unset = W::from(-1i8);
        ScoreSettings {
            mes_linear: switch(self.mes_linear, zero),
            mes_x_off: switch(self.mes_x_off, unset),
            mes_y_off: switch(self.mes_y_off, unset),
            mes_z_off: switch(self.mes_z_off, unset),
            mes_torque: switch(self.mes_torque, zero),
            mes_x_rot_off: switch(self.mes_x_rot_off, unset),
            mes_y_rot_off: switch(self.mes_y_rot_off, unset),
            mes_z_rot_off: switch(self.mes_z_rot_off, unset),
            avg_linear: switch(self.avg_linear, zero),
            avg_torque: switch(self.avg_torque, zero),
            min_linear: switch(self.min_linear, zero),
            min_torque: switch(self.min_torque, zero),
            x: switch(self.x, zero),
            y: switch(self.y, zero),
            z: switch(self.z, zero),
            x_rot: switch(self.x_rot, zero),
            y_rot: switch(self.y_rot, zero),
            z_rot: switch(self.z_rot, zero),
            center_of_mass_loss: switch(self.center_of_mass_loss, zero),
            center_loss: switch(self.center_loss, zero),
            surface_area_score: switch(self.surface_area_loss, zero),
            dimension_loss: switch(self.dimension_loss, zero),
            tube_exclusion_radius: switch(self.tube_exclusion_radius, zero),
            tube_exclusion_loss: switch(self.tube_exclusion_loss, zero),
            thruster_exclusion_radius: switch(self.thruster_exclusion_radius, zero),
            thruster_exclusion_loss: switch(self.thruster_exclusion_loss, zero),
            cardinality_loss: switch(self.cardinality_loss, zero),
            thruster_flow_exclusion_loss: switch(self.thruster_flow_exclusion_loss, zero),
        }
    }
}

/// Marks a breakdown whose terms have been multiplied by their weights.
#[derive(Debug, Clone, Copy)]
pub struct Scaled;

/// Marks a breakdown of raw, unweighted terms.
#[derive(Debug, Clone, Copy)]
pub struct Unscaled;

/// The itemised terms of a configuration's score, over a numeric type `D`.
/// `Type` is `Scaled` or `Unscaled`.
#[derive(Debug)]
pub struct ScoreResult<D, Type> {
    pub mes_linear: D,
    pub mes_torque: D,
    pub avg_linear: D,
    pub avg_torque: D,
    pub min_linear: D,
    pub min_torque: D,
    pub x: D,
    pub y: D,
    pub z: D,
    pub x_rot: D,
    pub y_rot: D,
    pub z_rot: D,
    pub center_of_mass_loss: D,
    pub center_loss: D,
    pub surface_area_score: D,
    pub dimension_loss: D,
    pub tube_exclusion_loss: D,
    pub thruster_exclusion_loss: D,
    pub thruster_flow_exclusion_loss: D,
    pub cardinality_loss: D,
    pub phantom: PhantomData<Type>,
}

impl<D: Clone, Type> Clone for ScoreResult<D, Type> {
    fn clone(&self) -> Self {
        ScoreResult {
            mes_linear: self.mes_linear.clone(),
            mes_torque: self.mes_torque.clone(),
            avg_linear: self.avg_linear.clone(),
            avg_torque: self.avg_torque.clone(),
            min_linear: self.min_linear.clone(),
            min_torque: self.min_torque.clone(),
            x: self.x.clone(),
            y: self.y.clone(),
            z: self.z.clone(),
            x_rot: self.x_rot.clone(),
            y_rot: self.y_rot.clone(),
            z_rot: self.z_rot.clone(),
            center_of_mass_loss: self.center_of_mass_loss.clone(),
            center_loss: self.center_loss.clone(),
            surface_area_score: self.surface_area_score.clone(),
            dimension_loss: self.dimension_loss.clone(),
            tube_exclusion_loss: self.tube_exclusion_loss.clone(),
            thruster_exclusion_loss: self.thruster_exclusion_loss.clone(),
            thruster_flow_exclusion_loss: self.thruster_flow_exclusion_loss.clone(),
            cardinality_loss: self.cardinality_loss.clone(),
            phantom: PhantomData,
        }
    }
}

/// Left fold of `+` over the first `n` terms of `s` (`n >= 1`).
pub open spec fn sum_prefix<D: core::ops::Add<Output = D>>(s: Seq<D>, n: nat) -> D
    decreases n,
{
    if n <= 1 {
        s[0]
    } else {
        sum_prefix(s, (n - 1) as nat).add_spec(s[n - 1])
    }
}

impl<D, Type> ScoreResult<D, Type> {
    /// The terms in the order in which they are summed.
    pub open spec fn terms(&self) -> Seq<D> {
        seq![
            self.x, self.y, self.z, self.x_rot, self.y_rot, self.z_rot,
            self.mes_linear, self.mes_torque, self.min_linear, self.min_torque,
            self.avg_linear, self.avg_torque, self.center_of_mass_loss, self.center_loss,
            self.surface_area_score, self.dimension_loss, self.tube_exclusion_loss,
            self.thruster_exclusion_loss, self.thruster_flow_exclusion_loss,
            self.cardinality_loss,
        ]
    }
}

impl<D: core::ops::Add<Output = D> + Copy> ScoreResult<D, Scaled> {
    /// Every partial sum of the terms may be added to the next term.
    pub open spec fn summable(&self) -> bool {
        forall|n: nat| 1 <= n < 20 ==> (#[trigger] sum_prefix(self.terms(), n)).add_req(self.terms()[n as int])
    }

    /// The scalar score: the sum of the weighted terms, in the order of `terms`.
    pub fn score(&self) -> (r: D)
        requires
            D::obeys_add_spec(),
            self.summable(),
        ensures
            r == sum_prefix(self.terms(), 20),
    {
        let terms: [D; 20] = [
            self.x, self.y, self.z, self.x_rot, self.y_rot, self.z_rot,
            self.mes_linear, self.mes_torque, self.min_linear, self.min_torque,
            self.avg_linear, self.avg_torque, self.center_of_mass_loss, self.center_loss,
            self.surface_area_score, self.dimension_loss, self.tube_exclusion_loss,
            self.thruster_exclusion_loss, self.thruster_flow_exclusion_loss,
            self.cardinality_loss,
        ];
        assert(terms@ == self.terms());
        let mut total = terms[0];
        let mut i: usize = 1;
        while i < 20
            invariant
                1 <= i <= 20,
                terms@ == self.terms(),
                self.summable(),
                D::obeys_add_spec(),
                total == sum_prefix(self.terms(), i as nat),
            decreases 20 - i,
        {
            assert(sum_prefix(self.terms(), i as nat).add_req(self.terms()[i as int]));
            total = total + terms[i];
            i = i + 1;
        }
        total
    }
}

impl<D: Copy> ScoreResult<D, Unscaled> {
    /// Every weight may be multiplied with its term.
    pub open spec fn multipliable<W: core::ops::Mul<D, Output = D>>(&self, settings: &ScoreSettings<W>) -> bool {
        &&& settings.mes_linear.mul_req(self.mes_linear)
        &&& settings.mes_torque.mul_req(self.mes_torque)
        &&& settings.avg_linear.mul_req(self.avg_linear)
        &&& settings.avg_torque.mul_req(self.avg_torque)
        &&& settings.min_linear.mul_req(self.min_linear)
        &&& settings.min_torque.mul_req(self.min_torque)
        &&& settings.x.mul_req(self.x)
        &&& settings.y.mul_req(self.y)
        &&& settings.z.mul_req(self.z)
        &&& settings.x_rot.mul_req(self.x_rot)
        &&& settings.y_rot.mul_req(self.y_rot)
        &&& settings.z_rot.mul_req(self.z_rot)
        &&& settings.center_of_mass_loss.mul_req(self.center_of_mass_loss)
        &&& settings.center_loss.mul_req(self.center_loss)
        &&& settings.surface_area_score.mul_req(self.surface_area_score)
        &&& settings.dimension_loss.mul_req(self.dimension_loss)
        &&& settings.tube_exclusion_loss.mul_req(self.tube_exclusion_loss)
        &&& settings.thruster_exclusion_loss.mul_req(self.thruster_exclusion_loss)
        &&& settings.thruster_flow_exclusion_loss.mul_req(self.thruster_flow_exclusion_loss)
        &&& settings.cardinality_loss.mul_req(self.cardinality_loss)
    }

    /// Each term multiplied by its weight.
    pub open spec fn scaled_by<W: core::ops::Mul<D, Output = D>>(&self, settings: &ScoreSettings<W>) -> ScoreResult<D, Scaled> {
        ScoreResult {
            mes_linear: settings.mes_linear.mul_spec(self.mes_linear),
            mes_torque: settings.mes_torque.mul_spec(self.mes_torque),
            avg_linear: settings.avg_linear.mul_spec(self.avg_linear),
            avg_torque: settings.avg_torque.mul_spec(self.avg_torque),
            min_linear: settings.min_linear.mul_spec(self.min_linear),
            min_torque: settings.min_torque.mul_spec(self.min_torque),
            x: settings.x.mul_spec(self.x),
            y: settings.y.mul_spec(self.y),
            z: settings.z.mul_spec(self.z),
            x_rot: settings.x_rot.mul_spec(self.x_rot),
            y_rot: settings.y_rot.mul_spec(self.y_rot),
            z_rot: settings.z_rot.mul_spec(self.z_rot),
            center_of_mass_loss: settings.center_of_mass_loss.mul_spec(self.center_of_mass_loss),
            center_loss: settings.center_loss.mul_spec(self.center_loss),
            surface_area_score: settings.surface_area_score.mul_spec(self.surface_area_score),
            dimension_loss: settings.dimension_loss.mul_spec(self.dimension_loss),
            tube_exclusion_loss: settings.tube_exclusion_loss.mul_spec(self.tube_exclusion_loss),
            thruster_exclusion_loss: settings.thruster_exclusion_loss.mul_spec(self.thruster_exclusion_loss),
            thruster_flow_exclusion_loss: settings.thruster_flow_exclusion_loss.mul_spec(self.thruster_flow_exclusion_loss),
            cardinality_loss: settings.cardinality_loss.mul_spec(self.cardinality_loss),
            phantom: PhantomData,
        }
    }

    /// The breakdown with each term multiplied by its weight.
    pub fn scale<W: core::ops::Mul<D, Output = D> + Copy>(&self, settings: &ScoreSettings<W>) -> (r: ScoreResult<D, Scaled>)
        requires
            self.multipliable(settings),
        ensures
            W::obeys_mul_spec() ==> r == self.scaled_by(settings),
    {
        ScoreResult {
            mes_linear: settings.mes_linear * self.mes_linear,
            mes_torque: settings.mes_torque * self.mes_torque,
            avg_linear: settings.avg_linear * self.avg_linear,
            avg_torque: settings.avg_torque * self.avg_torque,
            min_linear: settings.min_linear * self.min_linear,
            min_torque: settings.min_torque * self.min_torque,
            x: settings.x * self.x,
            y: settings.y * self.y,
            z: settings.z * self.z,
            x_rot: settings.x_rot * self.x_rot,
            y_rot: settings.y_rot * self.y_rot,
            z_rot: settings.z_rot * self.z_rot,
            center_of_mass_loss: settings.center_of_mass_loss * self.center_of_mass_loss,
            center_loss: settings.center_loss * self.center_loss,
            surface_area_score: settings.surface_area_score * self.surface_area_score,
            dimension_loss: settings.dimension_loss * self.dimension_loss,
            tube_exclusion_loss: settings.tube_exclusion_loss * self.tube_exclusion_loss,
            thruster_exclusion_loss: settings.thruster_exclusion_loss * self.thruster_exclusion_loss,
            thruster_flow_exclusion_loss: settings.thruster_flow_exclusion_loss * self.thruster_flow_exclusion_loss,
            cardinality_loss: settings.cardinality_loss * self.cardinality_loss,
            phantom: PhantomData,
        }
    }
}

impl<D: core::ops::Add<Output = D> + Copy> ScoreResult<D, Unscaled> {
    /// The scalar score: the sum of the weighted terms.
    pub fn score<W: core::ops::Mul<D, Output = D> + Copy>(&self, settings: &ScoreSettings<W>) -> (r: D)
        requires
            W::obeys_mul_spec(),
            D::obeys_add_spec(),
            self.multipliable(settings),
            self.scaled_by(settings).summable(),
        ensures
            r == sum_prefix(self.scaled_by(settings).terms(), 20),
    {
        self.scale(settings).score()
    }
}

} // verus!
