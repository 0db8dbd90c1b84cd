use vstd::prelude::*;

verus! {

/// Something that can hand a controller port a button snapshot.
pub trait ControllerState {
    /// The bits returned by successive reads after a strobe.
    spec fn buffer_spec(&self) -> Seq<u8>;

    /// The value returned once the snapshot is exhausted.
    spec fn overrun_spec(&self) -> u8;

    fn read_buffer(&self) -> (r: Vec<u8>)
        ensures
            r@ == self.buffer_spec(),
    ;

    fn overrun_default(&self) -> (r: u8)
        ensures
            r == self.overrun_spec(),
    ;
}

/// A controller port: a serial shift register loaded on strobe.
pub struct ControllerPort {
    pub read_buffer: Vec<u8>,
    pub index: u8,
    pub overrun_default: u8,
    /// The snapshot the next strobe loads.
    pub incoming_state: Option<(Vec<u8>, u8)>,
}

impl ControllerPort {
    /// The byte the next read returns.
    pub open spec fn current(&self) -> u8 {
        if (self.index as int) < self.read_buffer@.len() {
            self.read_buffer@[self.index as int]
        } else {
            self.overrun_default
        }
    }

    /// The port after a strobe.
    pub open spec fn polled(self) -> ControllerPort {
        match self.incoming_state {
            Some((b, d)) => ControllerPort { read_buffer: b, overrun_default: d, index: 0, incoming_state: None },
            None => ControllerPort { index: 0, ..self },
        }
    }

    /// The port after one read.
    pub open spec fn advanced(self) -> ControllerPort {
        ControllerPort { index: if self.index == 255 { 255 } else { (self.index + 1) as u8 }, ..self }
    }

    pub fn default() -> (r: ControllerPort)
        ensures
            r.read_buffer@ == seq![0u8, 0u8, 0u8, 0u8, 0u8, 0u8, 0u8, 0u8],
            r.index == 0,
            r.overrun_default == 1,
            r.incoming_state.is_none(),
    {
        ControllerPort {
            read_buffer: vec![0u8, 0u8, 0u8, 0u8, 0u8, 0u8, 0u8, 0u8],
            index: 0,
            overrun_default: 1,
            incoming_state: None,
        }
    }

    /// Strobe: loads the pending snapshot, if any, and rewinds the cursor.
    pub fn poll(&mut self)
        ensures
            *final(self) == old(self).polled(),
            final(self).index == 0,
            final(self).incoming_state.is_none(),
            match old(self).incoming_state {
                Some((b, d)) => final(self).read_buffer@ == b@ && final(self).overrun_default == d,
                None => final(self).read_buffer@ == old(self).read_buffer@
                    && final(self).overrun_default == old(self).overrun_default,
            },
    {
        match self.incoming_state.take() {
            Some((read_buffer, overrun_default)) => {
                self.read_buffer = read_buffer;
                self.overrun_default = overrun_default;
            },
            None => {},
        }
        self.index = 0;
    }

    fn current_byte(&self) -> (r: u8)
        ensures
            r == self.current(),
    {
        if (self.index as usize) < self.read_buffer.len() {
            self.read_buffer[self.index as usize]
        } else {
            self.overrun_default
        }
    }

    /// The byte the next read would return, without advancing.
    pub fn peek(&self) -> (r: u8)
        ensures
            r == self.current(),
    {
        self.current_byte()
    }

    /// Returns the next bit and advances the cursor (which stops at its maximum).
    pub fn read(&mut self) -> (r: u8)
        ensures
            r == old(self).current(),
            *final(self) == old(self).advanced(),
            final(self).index == (if old(self).index == 255 { 255 } else { old(self).index + 1 }),
            final(self).read_buffer@ == old(self).read_buffer@,
            final(self).overrun_default == old(self).overrun_default,
            final(self).incoming_state == old(self).incoming_state,
    {
        let byte = self.current_byte();
        self.index = self.index.saturating_add(1);
        byte
    }

    /// Queues the snapshot of `state` for the next strobe.
    pub fn update<S: ControllerState>(&mut self, state: &S)
        ensures
            final(self).read_buffer == old(self).read_buffer,
            final(self).index == old(self).index,
            final(self).overrun_default == old(self).overrun_default,
            match final(self).incoming_state {
                Some((b, d)) => b@ == state.buffer_spec() && d == state.overrun_spec(),
                None => false,
            },
    {
        self.incoming_state = Some((state.read_buffer(), state.overrun_default()));
    }
}

/// The standard NES joypad.
#[derive(Clone, Copy, Default)]
pub struct StandardController {
    pub a: bool,
    pub b: bool,
    pub select: bool,
    pub start: bool,
    pub up: bool,
    pub down: bool,
    pub left: bool,
    pub right: bool,
}

pub open spec fn bit_of(b: bool) -> u8 {
    if b { 1 } else { 0 }
}

impl ControllerState for StandardController {
    /// A, B, Select, Start, Up, Down, Left, Right.
    open spec fn buffer_spec(&self) -> Seq<u8> {
        seq![
            bit_of(self.a),
            bit_of(self.b),
            bit_of(self.select),
            bit_of(self.start),
            bit_of(self.up),
            bit_of(self.down),
            bit_of(self.left),
            bit_of(self.right),
        ]
    }

    open spec fn overrun_spec(&self) -> u8 {
        1
    }

    fn read_buffer(&self) -> (r: Vec<u8>) {
        let r = vec![
            self.a as u8,
            self.b as u8,
            self.select as u8,
            self.start as u8,
            self.up as u8,
            self.down as u8,
            self.left as u8,
            self.right as u8,
        ];
        proof {
            assert(r@ =~= self.buffer_spec());
        }
        r
    }

    fn overrun_default(&self) -> (r: u8) {
        1
    }
}

} // verus!
