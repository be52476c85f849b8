//! A three-variant state holder; each variant has a part that stays in
//! place and a part that can be moved out. Typestate handles prove which
//! variant the holder is in, so switching variants never needs a check.

use vstd::prelude::*;

verus! {

/// Three states, each with a part kept in place (`pinned`) and a movable part.
#[derive(Clone, Copy)]
pub enum ThreeStates<APin, AUnpin, BPin, BUnpin, CPin, CUnpin> {
    A { pinned: APin, unpinned: AUnpin },
    B { pinned: BPin, unpinned: BUnpin },
    C { pinned: CPin, unpinned: CUnpin },
}

impl<APin, AUnpin, BPin, BUnpin, CPin, CUnpin> ThreeStates<APin, AUnpin, BPin, BUnpin, CPin, CUnpin> {
    /// A handle on the current state, for a holder that is not moved.
    pub fn pin_project(&mut self) -> (r: ThreeStatesPinProject<'_, APin, AUnpin, BPin, BUnpin, CPin, CUnpin>)
        ensures
            match r {
                ThreeStatesPinProject::A(p) => *old(self) is A && *p.target() == *old(self)
                    && *final(self) == *final(p.target()),
                ThreeStatesPinProject::B(p) => *old(self) is B && *p.target() == *old(self)
                    && *final(self) == *final(p.target()),
                ThreeStatesPinProject::C(p) => *old(self) is C && *p.target() == *old(self)
                    && *final(self) == *final(p.target()),
            },
    {
        match *self {
            ThreeStates::A { .. } => ThreeStatesPinProject::A(StateAPinProject { inner: self }),
            ThreeStates::B { .. } => ThreeStatesPinProject::B(StateBPinProject { inner: self }),
            ThreeStates::C { .. } => ThreeStatesPinProject::C(StateCPinProject { inner: self }),
        }
    }

    /// A handle on the current state.
    pub fn project_mut(&mut self) -> (r: ThreeStatesProject<'_, APin, AUnpin, BPin, BUnpin, CPin, CUnpin>)
        ensures
            match r {
                ThreeStatesProject::A(p) => *old(self) is A && *p.target() == *old(self)
                    && *final(self) == *final(p.target()),
                ThreeStatesProject::B(p) => *old(self) is B && *p.target() == *old(self)
                    && *final(self) == *final(p.target()),
                ThreeStatesProject::C(p) => *old(self) is C && *p.target() == *old(self)
                    && *final(self) == *final(p.target()),
            },
    {
        match *self {
            ThreeStates::A { .. } => ThreeStatesProject::A(StateAProject { inner: self }),
            ThreeStates::B { .. } => ThreeStatesProject::B(StateBProject { inner: self }),
            ThreeStates::C { .. } => ThreeStatesProject::C(StateCProject { inner: self }),
        }
    }
}

/// Borrows of both parts of a state that is not moved.
pub struct StatePinProject<'a, A, B> {
    pub pinned: &'a mut A,
    pub unpinned: &'a mut B,
}

/// Borrows of both parts of a state.
pub struct StateProject<'a, A, B> {
    pub pinned: &'a mut A,
    pub unpinned: &'a mut B,
}

/// A holder that is not moved, known to be in state A.
pub struct StateAPinProject<'a, APin, AUnpin, BPin, BUnpin, CPin, CUnpin> {
    inner: &'a mut ThreeStates<APin, AUnpin, BPin, BUnpin, CPin, CUnpin>,
}

impl<'a, APin, AUnpin, BPin, BUnpin, CPin, CUnpin> StateAPinProject<'a, APin, AUnpin, BPin, BUnpin, CPin, CUnpin> {
    /// The borrowed holder.
    pub closed spec fn target(&self) -> &'a mut ThreeStates<APin, AUnpin, BPin, BUnpin, CPin, CUnpin> {
        self.inner
    }

    /// Borrows of the two parts of state A.
    pub fn get_project(&mut self) -> (r: StatePinProject<'_, APin, AUnpin>)
        requires
            *old(self).target() is A,
        ensures
            *r.pinned == old(self).target()->A_pinned,
            *r.unpinned == old(self).target()->A_unpinned,
            *final(self).target() == (ThreeStates::<APin, AUnpin, BPin, BUnpin, CPin, CUnpin>::A { pinned: *final(r.pinned), unpinned: *final(r.unpinned) }),
            *final(final(self).target()) == *final(old(self).target()),
    {
        match self.inner {
            ThreeStates::A { pinned, unpinned } => StatePinProject { pinned, unpinned },
            _ => vstd::pervasive::unreached(),
        }
    }

    /// Turns the handle into borrows of the two parts of state A.
    pub fn into_project(self) -> (r: StatePinProject<'a, APin, AUnpin>)
        requires
            *self.target() is A,
        ensures
            *r.pinned == self.target()->A_pinned,
            *r.unpinned == self.target()->A_unpinned,
            *final(self.target()) == (ThreeStates::<APin, AUnpin, BPin, BUnpin, CPin, CUnpin>::A { pinned: *final(r.pinned), unpinned: *final(r.unpinned) }),
    {
        let StateAPinProject { inner } = self;
        match inner {
            ThreeStates::A { pinned, unpinned } => StatePinProject { pinned, unpinned },
            _ => vstd::pervasive::unreached(),
        }
    }

    /// Replaces state A with a new state A; returns the old movable part.
    pub fn replace_state_a(&mut self, pinned: APin, unpinned: AUnpin) -> (r: AUnpin)
        requires
            *old(self).target() is A,
        ensures
            r == old(self).target()->A_unpinned,
            *final(self).target() == (ThreeStates::<APin, AUnpin, BPin, BUnpin, CPin, CUnpin>::A { pinned, unpinned }),
            *final(final(self).target()) == *final(old(self).target()),
    {
        let mut previous = ThreeStates::A { pinned, unpinned };
        core::mem::swap(self.inner, &mut previous);
        match previous {
            ThreeStates::A { unpinned, .. } => unpinned,
            _ => vstd::pervasive::unreached(),
        }
    }

    /// Switches to state B; returns the handle of state B and the old movable part.
    pub fn replace_state_b(self, pinned: BPin, unpinned: BUnpin) -> (r: (StateBPinProject<'a, APin, AUnpin, BPin, BUnpin, CPin, CUnpin>, AUnpin))
        requires
            *self.target() is A,
        ensures
            r.1 == self.target()->A_unpinned,
            *r.0.target() == (ThreeStates::<APin, AUnpin, BPin, BUnpin, CPin, CUnpin>::B { pinned, unpinned }),
            *final(r.0.target()) == *final(self.target()),
    {
        let StateAPinProject { inner } = self;
        let mut previous = ThreeStates::B { pinned, unpinned };
        core::mem::swap(inner, &mut previous);
        match previous {
            ThreeStates::A { unpinned, .. } => (StateBPinProject { inner }, unpinned),
            _ => vstd::pervasive::unreached(),
        }
    }

    /// Switches to state C; returns the handle of state C and the old movable part.
    pub fn replace_state_c(self, pinned: CPin, unpinned: CUnpin) -> (r: (StateCPinProject<'a, APin, AUnpin, BPin, BUnpin, CPin, CUnpin>, AUnpin))
        requires
            *self.target() is A,
        ensures
            r.1 == self.target()->A_unpinned,
            *r.0.target() == (ThreeStates::<APin, AUnpin, BPin, BUnpin, CPin, CUnpin>::C { pinned, unpinned }),
            *final(r.0.target()) == *final(self.target()),
    {
        let StateAPinProject { inner } = self;
        let mut previous = ThreeStates::C { pinned, unpinned };
        core::mem::swap(inner, &mut previous);
        match previous {
            ThreeStates::A { unpinned, .. } => (StateCPinProject { inner }, unpinned),
            _ => vstd::pervasive::unreached(),
        }
    }
}

/// A holder that is not moved, known to be in state B.
pub struct StateBPinProject<'a, APin, AUnpin, BPin, BUnpin, CPin, CUnpin> {
    inner: &'a mut ThreeStates<APin, AUnpin, BPin, BUnpin, CPin, CUnpin>,
}

impl<'a, APin, AUnpin, BPin, BUnpin, CPin, CUnpin> StateBPinProject<'a, APin, AUnpin, BPin, BUnpin, CPin, CUnpin> {
    /// The borrowed holder.
    pub closed spec fn target(&self) -> &'a mut ThreeStates<APin, AUnpin, BPin, BUnpin, CPin, CUnpin> {
        self.inner
    }

    /// Borrows of the two parts of state B.
    pub fn get_project(&mut self) -> (r: StatePinProject<'_, BPin, BUnpin>)
        requires
            *old(self).target() is B,
        ensures
            *r.pinned == old(self).target()->B_pinned,
            *r.unpinned == old(self).target()->B_unpinned,
            *final(self).target() == (ThreeStates::<APin, AUnpin, BPin, BUnpin, CPin, CUnpin>::B { pinned: *final(r.pinned), unpinned: *final(r.unpinned) }),
            *final(final(self).target()) == *final(old(self).target()),
    {
        match self.inner {
            ThreeStates::B { pinned, unpinned } => StatePinProject { pinned, unpinned },
            _ => vstd::pervasive::unreached(),
        }
    }

    /// Turns the handle into borrows of the two parts of state B.
    pub fn into_project(self) -> (r: StatePinProject<'a, BPin, BUnpin>)
        requires
            *self.target() is B,
        ensures
            *r.pinned == self.target()->B_pinned,
            *r.unpinned == self.target()->B_unpinned,
            *final(self.target()) == (ThreeStates::<APin, AUnpin, BPin, BUnpin, CPin, CUnpin>::B { pinned: *final(r.pinned), unpinned: *final(r.unpinned) }),
    {
        let StateBPinProject { inner } = self;
        match inner {
            ThreeStates::B { pinned, unpinned } => StatePinProject { pinned, unpinned },
            _ => vstd::pervasive::unreached(),
        }
    }

    /// Switches to state A; returns the handle of state A and the old movable part.
    pub fn replace_state_a(self, pinned: APin, unpinned: AUnpin) -> (r: (StateAPinProject<'a, APin, AUnpin, BPin, BUnpin, CPin, CUnpin>, BUnpin))
        requires
            *self.target() is B,
        ensures
            r.1 == self.target()->B_unpinned,
            *r.0.target() == (ThreeStates::<APin, AUnpin, BPin, BUnpin, CPin, CUnpin>::A { pinned, unpinned }),
            *final(r.0.target()) == *final(self.target()),
    {
        let StateBPinProject { inner } = self;
        let mut previous = ThreeStates::A { pinned, unpinned };
        core::mem::swap(inner, &mut previous);
        match previous {
            ThreeStates::B { unpinned, .. } => (StateAPinProject { inner }, unpinned),
            _ => vstd::pervasive::unreached(),
        }
    }

    /// Replaces state B with a new state B; returns the old movable part.
    pub fn replace_state_b(&mut self, pinned: BPin, unpinned: BUnpin) -> (r: BUnpin)
        requires
            *old(self).target() is B,
        ensures
            r == old(self).target()->B_unpinned,
            *final(self).target() == (ThreeStates::<APin, AUnpin, BPin, BUnpin, CPin, CUnpin>::B { pinned, unpinned }),
            *final(final(self).target()) == *final(old(self).target()),
    {
        let mut previous = ThreeStates::B { pinned, unpinned };
        core::mem::swap(self.inner, &mut previous);
        match previous {
            ThreeStates::B { unpinned, .. } => unpinned,
            _ => vstd::pervasive::unreached(),
        }
    }

    /// Switches to state C; returns the handle of state C and the old movable part.
    pub fn replace_state_c(self, pinned: CPin, unpinned: CUnpin) -> (r: (StateCPinProject<'a, APin, AUnpin, BPin, BUnpin, CPin, CUnpin>, BUnpin))
        requires
            *self.target() is B,
        ensures
            r.1 == self.target()->B_unpinned,
            *r.0.target() == (ThreeStates::<APin, AUnpin, BPin, BUnpin, CPin, CUnpin>::C { pinned, unpinned }),
            *final(r.0.target()) == *final(self.target()),
    {
        let StateBPinProject { inner } = self;
        let mut previous = ThreeStates::C { pinned, unpinned };
        core::mem::swap(inner, &mut previous);
        match previous {
            ThreeStates::B { unpinned, .. } => (StateCPinProject { inner }, unpinned),
            _ => vstd::pervasive::unreached(),
        }
    }
}

/// A holder that is not moved, known to be in state C.
pub struct StateCPinProject<'a, APin, AUnpin, BPin, BUnpin, CPin, CUnpin> {
    inner: &'a mut ThreeStates<APin, AUnpin, BPin, BUnpin, CPin, CUnpin>,
}

impl<'a, APin, AUnpin, BPin, BUnpin, CPin, CUnpin> StateCPinProject<'a, APin, AUnpin, BPin, BUnpin, CPin, CUnpin> {
    /// The borrowed holder.
    pub closed spec fn target(&self) -> &'a mut ThreeStates<APin, AUnpin, BPin, BUnpin, CPin, CUnpin> {
        self.inner
    }

    /// Borrows of the two parts of state C.
    pub fn get_project(&mut self) -> (r: StatePinProject<'_, CPin, CUnpin>)
        requires
            *old(self).target() is C,
        ensures
            *r.pinned == old(self).target()->C_pinned,
            *r.unpinned == old(self).target()->C_unpinned,
            *final(self).target() == (ThreeStates::<APin, AUnpin, BPin, BUnpin, CPin, CUnpin>::C { pinned: *final(r.pinned), unpinned: *final(r.unpinned) }),
            *final(final(self).target()) == *final(old(self).target()),
    {
        match self.inner {
            ThreeStates::C { pinned, unpinned } => StatePinProject { pinned, unpinned },
            _ => vstd::pervasive::unreached(),
        }
    }

    /// Turns the handle into borrows of the two parts of state C.
    pub fn into_project(self) -> (r: StatePinProject<'a, CPin, CUnpin>)
        requires
            *self.target() is C,
        ensures
            *r.pinned == self.target()->C_pinned,
            *r.unpinned == self.target()->C_unpinned,
            *final(self.target()) == (ThreeStates::<APin, AUnpin, BPin, BUnpin, CPin, CUnpin>::C { pinned: *final(r.pinned), unpinned: *final(r.unpinned) }),
    {
        let StateCPinProject { inner } = self;
        match inner {
            ThreeStates::C { pinned, unpinned } => StatePinProject { pinned, unpinned },
            _ => vstd::pervasive::unreached(),
        }
    }

    /// Switches to state A; returns the handle of state A and the old movable part.
    pub fn replace_state_a(self, pinned: APin, unpinned: AUnpin) -> (r: (StateAPinProject<'a, APin, AUnpin, BPin, BUnpin, CPin, CUnpin>, CUnpin))
        requires
            *self.target() is C,
        ensures
            r.1 == self.target()->C_unpinned,
            *r.0.target() == (ThreeStates::<APin, AUnpin, BPin, BUnpin, CPin, CUnpin>::A { pinned, unpinned }),
            *final(r.0.target()) == *final(self.target()),
    {
        let StateCPinProject { inner } = self;
        let mut previous = ThreeStates::A { pinned, unpinned };
        core::mem::swap(inner, &mut previous);
        match previous {
            ThreeStates::C { unpinned, .. } => (StateAPinProject { inner }, unpinned),
            _ => vstd::pervasive::unreached(),
        }
    }

    /// Switches to state B; returns the handle of state B and the old movable part.
    pub fn replace_state_b(self, pinned: BPin, unpinned: BUnpin) -> (r: (StateBPinProject<'a, APin, AUnpin, BPin, BUnpin, CPin, CUnpin>, CUnpin))
        requires
            *self.target() is C,
        ensures
            r.1 == self.target()->C_unpinned,
            *r.0.target() == (ThreeStates::<APin, AUnpin, BPin, BUnpin, CPin, CUnpin>::B { pinned, unpinned }),
            *final(r.0.target()) == *final(self.target()),
    {
        let StateCPinProject { inner } = self;
        let mut previous = ThreeStates::B { pinned, unpinned };
        core::mem::swap(inner, &mut previous);
        match previous {
            ThreeStates::C { unpinned, .. } => (StateBPinProject { inner }, unpinned),
            _ => vstd::pervasive::unreached(),
        }
    }

    /// Replaces state C with a new state C; returns the old movable part.
    pub fn replace_state_c(&mut self, pinned: CPin, unpinned: CUnpin) -> (r: CUnpin)
        requires
            *old(self).target() is C,
        ensures
            r == old(self).target()->C_unpinned,
            *final(self).target() == (ThreeStates::<APin, AUnpin, BPin, BUnpin, CPin, CUnpin>::C { pinned, unpinned }),
            *final(final(self).target()) == *final(old(self).target()),
    {
        let mut previous = ThreeStates::C { pinned, unpinned };
        core::mem::swap(self.inner, &mut previous);
        match previous {
            ThreeStates::C { unpinned, .. } => unpinned,
            _ => vstd::pervasive::unreached(),
        }
    }
}

/// A holder known to be in state A.
pub struct StateAProject<'a, APin, AUnpin, BPin, BUnpin, CPin, CUnpin> {
    inner: &'a mut ThreeStates<APin, AUnpin, BPin, BUnpin, CPin, CUnpin>,
}

impl<'a, APin, AUnpin, BPin, BUnpin, CPin, CUnpin> StateAProject<'a, APin, AUnpin, BPin, BUnpin, CPin, CUnpin> {
    /// The borrowed holder.
    pub closed spec fn target(&self) -> &'a mut ThreeStates<APin, AUnpin, BPin, BUnpin, CPin, CUnpin> {
        self.inner
    }

    /// Borrows of the two parts of state A.
    pub fn get_project(&mut self) -> (r: StateProject<'_, APin, AUnpin>)
        requires
            *old(self).target() is A,
        ensures
            *r.pinned == old(self).target()->A_pinned,
            *r.unpinned == old(self).target()->A_unpinned,
            *final(self).target() == (ThreeStates::<APin, AUnpin, BPin, BUnpin, CPin, CUnpin>::A { pinned: *final(r.pinned), unpinned: *final(r.unpinned) }),
            *final(final(self).target()) == *final(old(self).target()),
    {
        match self.inner {
            ThreeStates::A { pinned, unpinned } => StateProject { pinned, unpinned },
            _ => vstd::pervasive::unreached(),
        }
    }

    /// Turns the handle into borrows of the two parts of state A.
    pub fn into_project(self) -> (r: StateProject<'a, APin, AUnpin>)
        requires
            *self.target() is A,
        ensures
            *r.pinned == self.target()->A_pinned,
            *r.unpinned == self.target()->A_unpinned,
            *final(self.target()) == (ThreeStates::<APin, AUnpin, BPin, BUnpin, CPin, CUnpin>::A { pinned: *final(r.pinned), unpinned: *final(r.unpinned) }),
    {
        let StateAProject { inner } = self;
        match inner {
            ThreeStates::A { pinned, unpinned } => StateProject { pinned, unpinned },
            _ => vstd::pervasive::unreached(),
        }
    }

    /// Replaces state A with a new state A; returns the old movable part.
    pub fn replace_state_a(&mut self, pinned: APin, unpinned: AUnpin) -> (r: AUnpin)
        requires
            *old(self).target() is A,
        ensures
            r == old(self).target()->A_unpinned,
            *final(self).target() == (ThreeStates::<APin, AUnpin, BPin, BUnpin, CPin, CUnpin>::A { pinned, unpinned }),
            *final(final(self).target()) == *final(old(self).target()),
    {
        let mut previous = ThreeStates::A { pinned, unpinned };
        core::mem::swap(self.inner, &mut previous);
        match previous {
            ThreeStates::A { unpinned, .. } => unpinned,
            _ => vstd::pervasive::unreached(),
        }
    }

    /// Switches to state B; returns the handle of state B and the old movable part.
    pub fn replace_state_b(self, pinned: BPin, unpinned: BUnpin) -> (r: (StateBProject<'a, APin, AUnpin, BPin, BUnpin, CPin, CUnpin>, AUnpin))
        requires
            *self.target() is A,
        ensures
            r.1 == self.target()->A_unpinned,
            *r.0.target() == (ThreeStates::<APin, AUnpin, BPin, BUnpin, CPin, CUnpin>::B { pinned, unpinned }),
            *final(r.0.target()) == *final(self.target()),
    {
        let StateAProject { inner } = self;
        let mut previous = ThreeStates::B { pinned, unpinned };
        core::mem::swap(inner, &mut previous);
        match previous {
            ThreeStates::A { unpinned, .. } => (StateBProject { inner }, unpinned),
            _ => vstd::pervasive::unreached(),
        }
    }

    /// Switches to state C; returns the handle of state C and the old movable part.
    pub fn replace_state_c(self, pinned: CPin, unpinned: CUnpin) -> (r: (StateCProject<'a, APin, AUnpin, BPin, BUnpin, CPin, CUnpin>, AUnpin))
        requires
            *self.target() is A,
        ensures
            r.1 == self.target()->A_unpinned,
            *r.0.target() == (ThreeStates::<APin, AUnpin, BPin, BUnpin, CPin, CUnpin>::C { pinned, unpinned }),
            *final(r.0.target()) == *final(self.target()),
    {
        let StateAProject { inner } = self;
        let mut previous = ThreeStates::C { pinned, unpinned };
        core::mem::swap(inner, &mut previous);
        match previous {
            ThreeStates::A { unpinned, .. } => (StateCProject { inner }, unpinned),
            _ => vstd::pervasive::unreached(),
        }
    }
}

/// A holder known to be in state B.
pub struct StateBProject<'a, APin, AUnpin, BPin, BUnpin, CPin, CUnpin> {
    inner: &'a mut ThreeStates<APin, AUnpin, BPin, BUnpin, CPin, CUnpin>,
}

impl<'a, APin, AUnpin, BPin, BUnpin, CPin, CUnpin> StateBProject<'a, APin, AUnpin, BPin, BUnpin, CPin, CUnpin> {
    /// The borrowed holder.
    pub closed spec fn target(&self) -> &'a mut ThreeStates<APin, AUnpin, BPin, BUnpin, CPin, CUnpin> {
        self.inner
    }

    /// Borrows of the two parts of state B.
    pub fn get_project(&mut self) -> (r: StateProject<'_, BPin, BUnpin>)
        requires
            *old(self).target() is B,
        ensures
            *r.pinned == old(self).target()->B_pinned,
            *r.unpinned == old(self).target()->B_unpinned,
            *final(self).target() == (ThreeStates::<APin, AUnpin, BPin, BUnpin, CPin, CUnpin>::B { pinned: *final(r.pinned), unpinned: *final(r.unpinned) }),
            *final(final(self).target()) == *final(old(self).target()),
    {
        match self.inner {
            ThreeStates::B { pinned, unpinned } => StateProject { pinned, unpinned },
            _ => vstd::pervasive::unreached(),
        }
    }

    /// Turns the handle into borrows of the two parts of state B.
    pub fn into_project(self) -> (r: StateProject<'a, BPin, BUnpin>)
        requires
            *self.target() is B,
        ensures
            *r.pinned == self.target()->B_pinned,
            *r.unpinned == self.target()->B_unpinned,
            *final(self.target()) == (ThreeStates::<APin, AUnpin, BPin, BUnpin, CPin, CUnpin>::B { pinned: *final(r.pinned), unpinned: *final(r.unpinned) }),
    {
        let StateBProject { inner } = self;
        match inner {
            ThreeStates::B { pinned, unpinned } => StateProject { pinned, unpinned },
            _ => vstd::pervasive::unreached(),
        }
    }

    /// Switches to state A; returns the handle of state A and the old movable part.
    pub fn replace_state_a(self, pinned: APin, unpinned: AUnpin) -> (r: (StateAProject<'a, APin, AUnpin, BPin, BUnpin, CPin, CUnpin>, BUnpin))
        requires
            *self.target() is B,
        ensures
            r.1 == self.target()->B_unpinned,
            *r.0.target() == (ThreeStates::<APin, AUnpin, BPin, BUnpin, CPin, CUnpin>::A { pinned, unpinned }),
            *final(r.0.target()) == *final(self.target()),
    {
        let StateBProject { inner } = self;
        let mut previous = ThreeStates::A { pinned, unpinned };
        core::mem::swap(inner, &mut previous);
        match previous {
            ThreeStates::B { unpinned, .. } => (StateAProject { inner }, unpinned),
            _ => vstd::pervasive::unreached(),
        }
    }

    /// Replaces state B with a new state B; returns the old movable part.
    pub fn replace_state_b(&mut self, pinned: BPin, unpinned: BUnpin) -> (r: BUnpin)
        requires
            *old(self).target() is B,
        ensures
            r == old(self).target()->B_unpinned,
            *final(self).target() == (ThreeStates::<APin, AUnpin, BPin, BUnpin, CPin, CUnpin>::B { pinned, unpinned }),
            *final(final(self).target()) == *final(old(self).target()),
    {
        let mut previous = ThreeStates::B { pinned, unpinned };
        core::mem::swap(self.inner, &mut previous);
        match previous {
            ThreeStates::B { unpinned, .. } => unpinned,
            _ => vstd::pervasive::unreached(),
        }
    }

    /// Switches to state C; returns the handle of state C and the old movable part.
    pub fn replace_state_c(self, pinned: CPin, unpinned: CUnpin) -> (r: (StateCProject<'a, APin, AUnpin, BPin, BUnpin, CPin, CUnpin>, BUnpin))
        requires
            *self.target() is B,
        ensures
            r.1 == self.target()->B_unpinned,
            *r.0.target() == (ThreeStates::<APin, AUnpin, BPin, BUnpin, CPin, CUnpin>::C { pinned, unpinned }),
            *final(r.0.target()) == *final(self.target()),
    {
        let StateBProject { inner } = self;
        let mut previous = ThreeStates::C { pinned, unpinned };
        core::mem::swap(inner, &mut previous);
        match previous {
            ThreeStates::B { unpinned, .. } => (StateCProject { inner }, unpinned),
            _ => vstd::pervasive::unreached(),
        }
    }
}

/// A holder known to be in state C.
pub struct StateCProject<'a, APin, AUnpin, BPin, BUnpin, CPin, CUnpin> {
    inner: &'a mut ThreeStates<APin, AUnpin, BPin, BUnpin, CPin, CUnpin>,
}

impl<'a, APin, AUnpin, BPin, BUnpin, CPin, CUnpin> StateCProject<'a, APin, AUnpin, BPin, BUnpin, CPin, CUnpin> {
    /// The borrowed holder.
    pub closed spec fn target(&self) -> &'a mut ThreeStates<APin, AUnpin, BPin, BUnpin, CPin, CUnpin> {
        self.inner
    }

    /// Borrows of the two parts of state C.
    pub fn get_project(&mut self) -> (r: StateProject<'_, CPin, CUnpin>)
        requires
            *old(self).target() is C,
        ensures
            *r.pinned == old(self).target()->C_pinned,
            *r.unpinned == old(self).target()->C_unpinned,
            *final(self).target() == (ThreeStates::<APin, AUnpin, BPin, BUnpin, CPin, CUnpin>::C { pinned: *final(r.pinned), unpinned: *final(r.unpinned) }),
            *final(final(self).target()) == *final(old(self).target()),
    {
        match self.inner {
            ThreeStates::C { pinned, unpinned } => StateProject { pinned, unpinned },
            _ => vstd::pervasive::unreached(),
        }
    }

    /// Turns the handle into borrows of the two parts of state C.
    pub fn into_project(self) -> (r: StateProject<'a, CPin, CUnpin>)
        requires
            *self.target() is C,
        ensures
            *r.pinned == self.target()->C_pinned,
            *r.unpinned == self.target()->C_unpinned,
            *final(self.target()) == (ThreeStates::<APin, AUnpin, BPin, BUnpin, CPin, CUnpin>::C { pinned: *final(r.pinned), unpinned: *final(r.unpinned) }),
    {
        let StateCProject { inner } = self;
        match inner {
            ThreeStates::C { pinned, unpinned } => StateProject { pinned, unpinned },
            _ => vstd::pervasive::unreached(),
        }
    }

    /// Switches to state A; returns the handle of state A and the old movable part.
    pub fn replace_state_a(self, pinned: APin, unpinned: AUnpin) -> (r: (StateAProject<'a, APin, AUnpin, BPin, BUnpin, CPin, CUnpin>, CUnpin))
        requires
            *self.target() is C,
        ensures
            r.1 == self.target()->C_unpinned,
            *r.0.target() == (ThreeStates::<APin, AUnpin, BPin, BUnpin, CPin, CUnpin>::A { pinned, unpinned }),
            *final(r.0.target()) == *final(self.target()),
    {
        let StateCProject { inner } = self;
        let mut previous = ThreeStates::A { pinned, unpinned };
        core::mem::swap(inner, &mut previous);
        match previous {
            ThreeStates::C { unpinned, .. } => (StateAProject { inner }, unpinned),
            _ => vstd::pervasive::unreached(),
        }
    }

    /// Switches to state B; returns the handle of state B and the old movable part.
    pub fn replace_state_b(self, pinned: BPin, unpinned: BUnpin) -> (r: (StateBProject<'a, APin, AUnpin, BPin, BUnpin, CPin, CUnpin>, CUnpin))
        requires
            *self.target() is C,
        ensures
            r.1 == self.target()->C_unpinned,
            *r.0.target() == (ThreeStates::<APin, AUnpin, BPin, BUnpin, CPin, CUnpin>::B { pinned, unpinned }),
            *final(r.0.target()) == *final(self.target()),
    {
        let StateCProject { inner } = self;
        let mut previous = ThreeStates::B { pinned, unpinned };
        core::mem::swap(inner, &mut previous);
        match previous {
            ThreeStates::C { unpinned, .. } => (StateBProject { inner }, unpinned),
            _ => vstd::pervasive::unreached(),
        }
    }

    /// Replaces state C with a new state C; returns the old movable part.
    pub fn replace_state_c(&mut self, pinned: CPin, unpinned: CUnpin) -> (r: CUnpin)
        requires
            *old(self).target() is C,
        ensures
            r == old(self).target()->C_unpinned,
            *final(self).target() == (ThreeStates::<APin, AUnpin, BPin, BUnpin, CPin, CUnpin>::C { pinned, unpinned }),
            *final(final(self).target()) == *final(old(self).target()),
    {
        let mut previous = ThreeStates::C { pinned, unpinned };
        core::mem::swap(self.inner, &mut previous);
        match previous {
            ThreeStates::C { unpinned, .. } => unpinned,
            _ => vstd::pervasive::unreached(),
        }
    }
}

/// A handle on a holder that is not moved, by its current state.
pub enum ThreeStatesPinProject<'a, APin, AUnpin, BPin, BUnpin, CPin, CUnpin> {
    A(StateAPinProject<'a, APin, AUnpin, BPin, BUnpin, CPin, CUnpin>),
    B(StateBPinProject<'a, APin, AUnpin, BPin, BUnpin, CPin, CUnpin>),
    C(StateCPinProject<'a, APin, AUnpin, BPin, BUnpin, CPin, CUnpin>),
}

/// A handle on a holder, by its current state.
pub enum ThreeStatesProject<'a, APin, AUnpin, BPin, BUnpin, CPin, CUnpin> {
    A(StateAProject<'a, APin, AUnpin, BPin, BUnpin, CPin, CUnpin>),
    B(StateBProject<'a, APin, AUnpin, BPin, BUnpin, CPin, CUnpin>),
    C(StateCProject<'a, APin, AUnpin, BPin, BUnpin, CPin, CUnpin>),
}

/// A dropped handle leaves the holder as the handle last saw it.
pub broadcast proof fn lemma_a_pin_project_resolved<'a, APin, AUnpin, BPin, BUnpin, CPin, CUnpin>(p: StateAPinProject<'a, APin, AUnpin, BPin, BUnpin, CPin, CUnpin>)
    requires
        #[trigger] has_resolved(p),
    ensures
        *final(p.target()) == *p.target(),
{
}

/// A dropped handle leaves the holder as the handle last saw it.
pub broadcast proof fn lemma_b_pin_project_resolved<'a, APin, AUnpin, BPin, BUnpin, CPin, CUnpin>(p: StateBPinProject<'a, APin, AUnpin, BPin, BUnpin, CPin, CUnpin>)
    requires
        #[trigger] has_resolved(p),
    ensures
        *final(p.target()) == *p.target(),
{
}

/// A dropped handle leaves the holder as the handle last saw it.
pub broadcast proof fn lemma_c_pin_project_resolved<'a, APin, AUnpin, BPin, BUnpin, CPin, CUnpin>(p: StateCPinProject<'a, APin, AUnpin, BPin, BUnpin, CPin, CUnpin>)
    requires
        #[trigger] has_resolved(p),
    ensures
        *final(p.target()) == *p.target(),
{
}

/// A dropped handle leaves the holder as the handle last saw it.
pub broadcast proof fn lemma_a_project_resolved<'a, APin, AUnpin, BPin, BUnpin, CPin, CUnpin>(p: StateAProject<'a, APin, AUnpin, BPin, BUnpin, CPin, CUnpin>)
    requires
        #[trigger] has_resolved(p),
    ensures
        *final(p.target()) == *p.target(),
{
}

/// A dropped handle leaves the holder as the handle last saw it.
pub broadcast proof fn lemma_b_project_resolved<'a, APin, AUnpin, BPin, BUnpin, CPin, CUnpin>(p: StateBProject<'a, APin, AUnpin, BPin, BUnpin, CPin, CUnpin>)
    requires
        #[trigger] has_resolved(p),
    ensures
        *final(p.target()) == *p.target(),
{
}

/// A dropped handle leaves the holder as the handle last saw it.
pub broadcast proof fn lemma_c_project_resolved<'a, APin, AUnpin, BPin, BUnpin, CPin, CUnpin>(p: StateCProject<'a, APin, AUnpin, BPin, BUnpin, CPin, CUnpin>)
    requires
        #[trigger] has_resolved(p),
    ensures
        *final(p.target()) == *p.target(),
{
}

pub broadcast group group_three_states_resolved {
    lemma_a_pin_project_resolved,
    lemma_b_pin_project_resolved,
    lemma_c_pin_project_resolved,
    lemma_a_project_resolved,
    lemma_b_project_resolved,
    lemma_c_project_resolved,
}

} // verus!
