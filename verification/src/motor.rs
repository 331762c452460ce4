//! Motor electrical model: rotating-frame (d-q) current dynamics.
//!
//! Current derivatives from the applied phase voltages, the resistive drops,
//! the cross-coupling terms and the back EMF, integrated by explicit Euler
//! at the electrical sub-step, and the interior-permanent-magnet torque
//! equation including the reluctance term, all over micro-units.

use vstd::prelude::*;

use crate::fixed::{
    div_spec, div_wide, iabs, lemma_div_spec_bound, lemma_div_zero, lemma_mul_bound,
    lemma_mul_spec_bound, lemma_mul_zero, mul_scaled, mul_spec, mul_wide, tdiv, MAX_ABS, MAX_WIDE,
    SCALE,
};

verus! {

/// The number of pole pairs assumed for motors defined through bench
/// constants.
pub const STANDARD_POLES_NUMBER: u32 = 3;

/// Motor constants, in micro-units (micro-ohms, micro-henries, micro-webers).
#[derive(Debug, Clone, Copy, PartialEq, Eq, Structural)]
pub struct MotorConstant {
    pub pole_pairs: u32,
    pub resistance: i64,
    pub inductance_d: i64,
    pub inductance_q: i64,
    pub flux_linkage: i64,
}

impl MotorConstant {
    /// Positive, representable constants.
    pub open spec fn wf(self) -> bool {
        &&& 1 <= self.pole_pairs <= 1_000
        &&& 1 <= self.resistance <= MAX_ABS
        &&& 10 <= self.inductance_d <= MAX_ABS
        &&& 10 <= self.inductance_q <= MAX_ABS
        &&& 0 <= self.flux_linkage <= MAX_ABS
    }

    /// The d-axis current derivative: applied voltage less the resistive
    /// drop, plus the cross-coupling from the q axis, over the d inductance.
    pub open spec fn d_axis_derivative(self, i_d: int, i_q: int, v_d: int, w_e: int) -> int {
        div_spec(
            v_d - mul_spec(self.resistance as int, i_d) + mul_spec(
                mul_spec(self.inductance_q as int, w_e),
                i_q,
            ),
            self.inductance_d as int,
        )
    }

    /// The flux term of the q axis: the d-axis flux plus the magnet flux
    /// under the convention that scales it by three halves.
    pub open spec fn flux_term(self, i_d: int) -> int {
        mul_spec(self.inductance_d as int, i_d) + tdiv(3 * self.flux_linkage as int, 2)
    }

    /// The q-axis current derivative: applied voltage less the resistive
    /// drop and the back EMF, over the q inductance.
    pub open spec fn q_axis_derivative(self, i_d: int, i_q: int, v_q: int, w_e: int) -> int {
        div_spec(
            v_q - mul_spec(self.resistance as int, i_q) - mul_spec(w_e, self.flux_term(i_d)),
            self.inductance_q as int,
        )
    }

    /// The applied torque: three halves times the pole pairs times the
    /// magnet and reluctance terms.
    pub open spec fn torque_of(self, i_d: int, i_q: int) -> int {
        tdiv(
            3 * self.pole_pairs as int * (mul_spec(self.flux_linkage as int, i_q) + mul_spec(
                mul_spec(self.inductance_d as int - self.inductance_q as int, i_d),
                i_q,
            )),
            2,
        )
    }

    pub fn new(pole_pairs: u32, resistance: i64, inductance_d: i64, inductance_q: i64, flux_linkage: i64)
        -> (r: Self)
        ensures
            r == (MotorConstant { pole_pairs, resistance, inductance_d, inductance_q, flux_linkage }),
    {
        MotorConstant { pole_pairs, resistance, inductance_d, inductance_q, flux_linkage }
    }

    /// Derive motor constants from bench figures: the torque constant and
    /// the motor constant give the winding resistance as their squared
    /// ratio, and the torque constant gives the flux linkage by the
    /// two-thirds convention over the standard pole count.
    pub fn from_recalc_values(kv_rpm_per_volt: i64, kt_nm_per_amp: i64, km_nm_per_root_of_watt: i64)
        -> (r: Self)
        requires
            0 <= kt_nm_per_amp <= MAX_ABS,
            1_000 <= km_nm_per_root_of_watt <= MAX_ABS,
            iabs(div_spec(kt_nm_per_amp as int, km_nm_per_root_of_watt as int)) <= MAX_ABS as int,
        ensures
            r.pole_pairs == STANDARD_POLES_NUMBER,
            r.flux_linkage as int == tdiv(
                2 * kt_nm_per_amp as int,
                3 * STANDARD_POLES_NUMBER as int,
            ),
            r.resistance as int == mul_spec(
                div_spec(kt_nm_per_amp as int, km_nm_per_root_of_watt as int),
                div_spec(kt_nm_per_amp as int, km_nm_per_root_of_watt as int),
            ),
            r.inductance_d == 15,
            r.inductance_q == 15,
    {
        let _ = kv_rpm_per_volt;
        let doubled: i64 = 2 * kt_nm_per_amp;
        let flux_linkage: i64 = crate::fixed::div_down(doubled, 3 * (STANDARD_POLES_NUMBER as i64));
        proof {
            lemma_div_spec_bound(
                kt_nm_per_amp as int,
                km_nm_per_root_of_watt as int,
                MAX_ABS as int,
                1_000,
            );
        }
        let ratio: i64 = div_wide(kt_nm_per_amp, km_nm_per_root_of_watt);
        let resistance: i64 = mul_scaled(ratio, ratio);
        MotorConstant {
            pole_pairs: STANDARD_POLES_NUMBER,
            resistance,
            inductance_d: 15,
            inductance_q: 15,
            flux_linkage,
        }
    }

    /// A Kraken X60 from its bench figures.
    pub fn kraken_x60() -> (r: Self)
        ensures
            r == Self::from_recalc_spec(19_400, 107_000),
    {
        Self::from_recalc_values(502_100_000, 19_400, 107_000)
    }

    /// A NEO from its bench figures.
    pub fn neo() -> (r: Self)
        ensures
            r == Self::from_recalc_spec(18_100, 70_000),
    {
        Self::from_recalc_values(493_500_000, 18_100, 70_000)
    }

    /// What `from_recalc_values` builds, over the two figures it reads.
    pub open spec fn from_recalc_spec(kt: int, km: int) -> Self {
        MotorConstant {
            pole_pairs: STANDARD_POLES_NUMBER,
            resistance: mul_spec(div_spec(kt, km), div_spec(kt, km)) as i64,
            inductance_d: 15,
            inductance_q: 15,
            flux_linkage: tdiv(2 * kt, 3 * STANDARD_POLES_NUMBER as int) as i64,
        }
    }
}

/// Advance the d and q currents by one explicit Euler sub-step and report
/// the applied torque of the new currents.
pub fn current_step(c: &MotorConstant, i_d: i64, i_q: i64, v_d: i64, v_q: i64, w_e: i64, dt: i64)
    -> (r: (i64, i64))
    requires
        c.wf(),
        -MAX_ABS <= i_d <= MAX_ABS,
        -MAX_ABS <= i_q <= MAX_ABS,
        -MAX_ABS <= v_d <= MAX_ABS,
        -MAX_ABS <= v_q <= MAX_ABS,
        -MAX_ABS <= w_e <= MAX_ABS,
        0 <= dt <= SCALE,
        iabs(mul_spec(c.inductance_q as int, w_e as int)) <= MAX_ABS as int,
        iabs(c.flux_term(i_d as int)) <= MAX_ABS as int,
        iabs(c.d_axis_derivative(i_d as int, i_q as int, v_d as int, w_e as int)) <= MAX_WIDE as int,
        iabs(c.q_axis_derivative(i_d as int, i_q as int, v_q as int, w_e as int)) <= MAX_WIDE as int,
    ensures
        r.0 as int == i_d as int + mul_spec(
            c.d_axis_derivative(i_d as int, i_q as int, v_d as int, w_e as int),
            dt as int,
        ),
        r.1 as int == i_q as int + mul_spec(
            c.q_axis_derivative(i_d as int, i_q as int, v_q as int, w_e as int),
            dt as int,
        ),
        i_d == 0 && i_q == 0 && v_d == 0 && v_q == 0 && w_e == 0 ==> r.0 == 0 && r.1 == 0,
{
    let cross: i64 = mul_scaled(c.inductance_q, w_e);
    let coupled: i64 = mul_scaled(cross, i_q);
    let num_d: i64 = v_d - mul_scaled(c.resistance, i_d) + coupled;
    proof {
        lemma_div_spec_bound(num_d as int, c.inductance_d as int, 2 * MAX_WIDE as int + MAX_ABS as int, 10);
    }
    let ddt_d: i64 = div_wide(num_d, c.inductance_d);

    let flux: i64 = mul_scaled(c.inductance_d, i_d) + crate::fixed::div_down(
        3 * c.flux_linkage,
        2,
    );
    let emf: i64 = mul_scaled(w_e, flux);
    let num_q: i64 = v_q - mul_scaled(c.resistance, i_q) - emf;
    proof {
        lemma_div_spec_bound(num_q as int, c.inductance_q as int, 2 * MAX_WIDE as int + MAX_ABS as int, 10);
    }
    let ddt_q: i64 = div_wide(num_q, c.inductance_q);

    proof {
        lemma_mul_bound(ddt_d as int, dt as int, MAX_WIDE as int, SCALE as int);
        lemma_mul_bound(ddt_q as int, dt as int, MAX_WIDE as int, SCALE as int);
        lemma_mul_spec_bound(ddt_d as int, dt as int, MAX_WIDE as int, SCALE as int);
        lemma_mul_spec_bound(ddt_q as int, dt as int, MAX_WIDE as int, SCALE as int);
        if i_d == 0 && i_q == 0 && v_d == 0 && v_q == 0 && w_e == 0 {
            lemma_motor_rest(*c);
            lemma_mul_zero(dt as int);
        }
    }
    let new_d: i64 = i_d + mul_wide(ddt_d, dt);
    let new_q: i64 = i_q + mul_wide(ddt_q, dt);
    (new_d, new_q)
}

/// The applied torque of the present currents.
pub fn applied_torque(c: &MotorConstant, i_d: i64, i_q: i64) -> (r: i64)
    requires
        c.wf(),
        -MAX_ABS <= i_d <= MAX_ABS,
        -MAX_ABS <= i_q <= MAX_ABS,
        iabs(mul_spec(c.inductance_d as int - c.inductance_q as int, i_d as int)) <= MAX_ABS as int,
    ensures
        r as int == c.torque_of(i_d as int, i_q as int),
        i_q == 0 ==> r == 0,
{
    let magnet: i64 = mul_scaled(c.flux_linkage, i_q);
    let saliency: i64 = mul_scaled(c.inductance_d - c.inductance_q, i_d);
    let reluctance: i64 = mul_scaled(saliency, i_q);
    let total: i64 = magnet + reluctance;
    proof {
        if i_q == 0 {
            lemma_mul_zero(c.flux_linkage as int);
            lemma_mul_zero(saliency as int);
            crate::fixed::lemma_tdiv_shrinks(
                3 * c.pole_pairs as int * (0 as int),
                2,
            );
            assert(3 * c.pole_pairs as int * 0 == 0) by (nonlinear_arith);
        }
        assert(iabs(3 * c.pole_pairs as int * (total as int)) <= 3_000 * 2 * MAX_WIDE as int) by (nonlinear_arith)
            requires
                1 <= c.pole_pairs <= 1_000,
                iabs(total as int) <= 2 * MAX_WIDE as int,
        ;
    }
    let scaled: i64 = (3 * (c.pole_pairs as i64)) * total;
    crate::fixed::div_down(scaled, 2)
}

/// From electrical and mechanical rest — no applied voltage, no current, no
/// rotation — the motor stays at rest: both current derivatives are zero,
/// so one step leaves the currents at zero, and the torque of zero current
/// is zero. By induction the currents and torque stay zero for all steps.
pub proof fn lemma_motor_rest(c: MotorConstant)
    requires
        c.wf(),
    ensures
        c.d_axis_derivative(0, 0, 0, 0) == 0,
        c.q_axis_derivative(0, 0, 0, 0) == 0,
        c.torque_of(0, 0) == 0,
{
    lemma_mul_zero(c.resistance as int);
    lemma_mul_zero(c.inductance_q as int);
    lemma_mul_zero(mul_spec(c.inductance_q as int, 0));
    lemma_mul_zero(c.inductance_d as int);
    lemma_mul_zero(c.flux_term(0));
    lemma_mul_zero(c.flux_linkage as int);
    lemma_mul_zero(mul_spec(c.inductance_d as int - c.inductance_q as int, 0));
    lemma_div_zero(c.inductance_d as int);
    lemma_div_zero(c.inductance_q as int);
    assert(3 * c.pole_pairs as int * 0 == 0) by (nonlinear_arith);
    crate::fixed::lemma_tdiv_shrinks(0, 2);
}

} // verus!
