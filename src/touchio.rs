//! Role controller for one electrode of the panel: disabled, driven as an output, or connected
//! to the ADC. Every change of role goes through one transition point, which asks the hardware
//! for a reconfiguration only when the role actually changes.
use vstd::prelude::*;

verus! {

/// The four electrodes of a four-wire panel.
#[derive(Clone, Copy, Debug, PartialEq, Eq, Structural)]
pub enum Electrode {
    XMinus,
    XPlus,
    YMinus,
    YPlus,
}

/// What an electrode is connected to.
#[derive(Clone, Copy, Debug, PartialEq, Eq, Structural)]
pub enum Role {
    /// Floating, high impedance: the safe resting state.
    Disabled,
    /// Push-pull digital output.
    Output,
    /// Routed to the ADC multiplexer.
    Analog,
}

/// One operation on the electrode lines, carried out by the hardware layer in the order given.
#[derive(Clone, Copy, Debug, PartialEq, Eq, Structural)]
pub enum PinOp {
    /// Reconfigure the electrode into the given role.
    Configure(Electrode, Role),
    /// Drive the electrode, configured as an output, high (`true`) or low (`false`).
    Drive(Electrode, bool),
}

/// The operations that take an electrode from role `from` to role `to`: none when they agree,
/// else one reconfiguration.
pub open spec fn role_ops(e: Electrode, from: Role, to: Role) -> Seq<PinOp> {
    if from == to {
        Seq::empty()
    } else {
        seq![PinOp::Configure(e, to)]
    }
}

/// How many of `ops` reconfigure an electrode.
pub open spec fn count_configures(ops: Seq<PinOp>) -> nat
    decreases ops.len(),
{
    if ops.len() == 0 {
        0
    } else {
        count_configures(ops.drop_last()) + if ops.last() is Configure { 1nat } else { 0nat }
    }
}

/// A 12-bit conversion spread over 16 bits: shifted up by four, with its top four bits
/// repeated in the freed low bits.
pub open spec fn widened(v: u16) -> u16 {
    (v << 4u16) | (v >> 8u16)
}

/// Spreads a 12-bit conversion over the full 16-bit scale, so that 0 stays 0 and the 12-bit
/// maximum becomes the 16-bit maximum.
pub fn widen(v: u16) -> (r: u16)
    ensures
        r == widened(v),
        v < 0x1000 ==> r == 16 * v + v / 256,
{
    let r: u16 = (v << 4u16) | (v >> 8u16);
    assert(v < 0x1000 ==> ((v << 4u16) | (v >> 8u16)) == 16 * v + v / 256) by (bit_vector);
    r
}

/// The role model of one electrode.
pub struct TouchIO {
    electrode: Electrode,
    role: Role,
}

impl TouchIO {
    /// The electrode this controller owns.
    pub closed spec fn spec_electrode(&self) -> Electrode {
        self.electrode
    }

    /// The role the electrode is in.
    pub closed spec fn spec_role(&self) -> Role {
        self.role
    }

    /// A controller for `electrode`, which starts out disabled.
    pub fn new(electrode: Electrode) -> (r: TouchIO)
        ensures
            r.spec_electrode() == electrode,
            r.spec_role() == Role::Disabled,
    {
        TouchIO { electrode, role: Role::Disabled }
    }

    pub fn electrode(&self) -> (r: Electrode)
        ensures
            r == self.spec_electrode(),
    {
        self.electrode
    }

    pub fn role(&self) -> (r: Role)
        ensures
            r == self.spec_role(),
    {
        self.role
    }

    /// Puts the electrode into `role`, appending to `ops` the reconfiguration that this takes,
    /// if any.
    pub fn make_role(&mut self, role: Role, ops: &mut Vec<PinOp>)
        ensures
            final(self).spec_electrode() == old(self).spec_electrode(),
            final(self).spec_role() == role,
            final(ops)@ == old(ops)@ + role_ops(old(self).spec_electrode(), old(self).spec_role(), role),
    {
        if self.role != role {
            ops.push(PinOp::Configure(self.electrode, role));
            self.role = role;
        } else {
            assert(old(ops)@ + role_ops(self.electrode, self.role, role) =~= old(ops)@);
        }
    }

    /// Makes the electrode a digital output.
    pub fn make_output(&mut self, ops: &mut Vec<PinOp>)
        ensures
            final(self).spec_electrode() == old(self).spec_electrode(),
            final(self).spec_role() == Role::Output,
            final(ops)@ == old(ops)@ + role_ops(old(self).spec_electrode(), old(self).spec_role(), Role::Output),
    {
        self.make_role(Role::Output, ops)
    }

    /// Connects the electrode to the ADC.
    pub fn make_adc(&mut self, ops: &mut Vec<PinOp>)
        ensures
            final(self).spec_electrode() == old(self).spec_electrode(),
            final(self).spec_role() == Role::Analog,
            final(ops)@ == old(ops)@ + role_ops(old(self).spec_electrode(), old(self).spec_role(), Role::Analog),
    {
        self.make_role(Role::Analog, ops)
    }

    /// Lets the electrode float.
    pub fn make_disabled(&mut self, ops: &mut Vec<PinOp>)
        ensures
            final(self).spec_electrode() == old(self).spec_electrode(),
            final(self).spec_role() == Role::Disabled,
            final(ops)@ == old(ops)@ + role_ops(old(self).spec_electrode(), old(self).spec_role(), Role::Disabled),
    {
        self.make_role(Role::Disabled, ops)
    }

    /// Makes the electrode an output and drives it low.
    pub fn set_low(&mut self, ops: &mut Vec<PinOp>)
        ensures
            final(self).spec_electrode() == old(self).spec_electrode(),
            final(self).spec_role() == Role::Output,
            final(ops)@ == old(ops)@ + role_ops(old(self).spec_electrode(), old(self).spec_role(), Role::Output)
                + seq![PinOp::Drive(old(self).spec_electrode(), false)],
    {
        self.make_output(ops);
        ops.push(PinOp::Drive(self.electrode, false));
    }

    /// Makes the electrode an output and drives it high.
    pub fn set_high(&mut self, ops: &mut Vec<PinOp>)
        ensures
            final(self).spec_electrode() == old(self).spec_electrode(),
            final(self).spec_role() == Role::Output,
            final(ops)@ == old(ops)@ + role_ops(old(self).spec_electrode(), old(self).spec_role(), Role::Output)
                + seq![PinOp::Drive(old(self).spec_electrode(), true)],
    {
        self.make_output(ops);
        ops.push(PinOp::Drive(self.electrode, true));
    }

    /// The reading of a conversion taken on this electrode, on the 16-bit scale. Only an
    /// electrode connected to the ADC can be read.
    pub fn read(&self, conversion: u16) -> (r: u16)
        requires
            self.spec_role() == Role::Analog,
        ensures
            r == widened(conversion),
    {
        widen(conversion)
    }
}

/// Putting an electrode into a role and then into the same role again reconfigures it at most
/// once, and the second request reconfigures nothing.
pub proof fn lemma_role_change_once(e: Electrode, from: Role, to: Role)
    ensures
        count_configures(role_ops(e, from, to) + role_ops(e, to, to)) <= 1,
        role_ops(e, to, to).len() == 0,
{
    let s = role_ops(e, from, to) + role_ops(e, to, to);
    assert(s =~= role_ops(e, from, to));
    if from != to {
        assert(s.drop_last() =~= Seq::<PinOp>::empty());
        assert(count_configures(s.drop_last()) == 0);
    } else {
        assert(count_configures(s) == 0);
    }
}

} // verus!
