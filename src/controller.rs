//! Decoding of adapter reports into per-controller button and stick state.

use vstd::prelude::*;

verus! {

/// One digital button of a controller.
#[derive(Clone, Copy, Debug, PartialEq, Eq, Structural)]
pub enum Button {
    A,
    B,
    X,
    Y,
    DLeft,
    DRight,
    DDown,
    DUp,
    Start,
    Z,
    R,
    L,
}

pub const A_BUTTON: Button = Button::A;
pub const B_BUTTON: Button = Button::B;
pub const X_BUTTON: Button = Button::X;
pub const Y_BUTTON: Button = Button::Y;
pub const D_LEFT_BUTTON: Button = Button::DLeft;
pub const D_RIGHT_BUTTON: Button = Button::DRight;
pub const D_DOWN_BUTTON: Button = Button::DDown;
pub const D_UP_BUTTON: Button = Button::DUp;
pub const START_BUTTON: Button = Button::Start;
pub const Z_BUTTON: Button = Button::Z;
pub const R_BUTTON: Button = Button::R;
pub const L_BUTTON: Button = Button::L;

/// Every button, in the order in which held buttons are listed.
pub const BUTTONS: [Button; 12] = [
    Button::A,
    Button::B,
    Button::X,
    Button::Y,
    Button::DLeft,
    Button::DRight,
    Button::DUp,
    Button::DDown,
    Button::Start,
    Button::Z,
    Button::R,
    Button::L,
];

impl Button {
    /// The report byte (within a controller's eight bytes) holding this button.
    pub open spec fn byte(self) -> int {
        match self {
            Button::Start | Button::Z | Button::R | Button::L => 1,
            _ => 0,
        }
    }

    /// The bit of that byte that is set while this button is held.
    pub open spec fn bit(self) -> u8 {
        match self {
            Button::A => 0x1,
            Button::B => 0x2,
            Button::X => 0x4,
            Button::Y => 0x8,
            Button::DLeft => 0x10,
            Button::DRight => 0x20,
            Button::DDown => 0x40,
            Button::DUp => 0x80,
            Button::Start => 0x1,
            Button::Z => 0x2,
            Button::R => 0x4,
            Button::L => 0x8,
        }
    }

    /// The button's label.
    pub open spec fn label(self) -> Seq<char> {
        match self {
            Button::A => seq!['A'],
            Button::B => seq!['B'],
            Button::X => seq!['X'],
            Button::Y => seq!['Y'],
            Button::DLeft => seq!['D', '_', 'L', 'E', 'F', 'T'],
            Button::DRight => seq!['D', '_', 'R', 'I', 'G', 'H', 'T'],
            Button::DDown => seq!['D', '_', 'D', 'O', 'W', 'N'],
            Button::DUp => seq!['D', '_', 'U', 'P'],
            Button::Start => seq!['S', 'T', 'A', 'R', 'T'],
            Button::Z => seq!['Z'],
            Button::R => seq!['R'],
            Button::L => seq!['L'],
        }
    }

    pub fn index(&self) -> (r: u8)
        ensures
            r == self.byte(),
    {
        match self {
            Button::Start | Button::Z | Button::R | Button::L => 1,
            _ => 0,
        }
    }

    pub fn mask(&self) -> (r: u8)
        ensures
            r == self.bit(),
    {
        match self {
            Button::A => 0x1,
            Button::B => 0x2,
            Button::X => 0x4,
            Button::Y => 0x8,
            Button::DLeft => 0x10,
            Button::DRight => 0x20,
            Button::DDown => 0x40,
            Button::DUp => 0x80,
            Button::Start => 0x1,
            Button::Z => 0x2,
            Button::R => 0x4,
            Button::L => 0x8,
        }
    }

    pub fn name(&self) -> (r: &'static str)
        ensures
            r@ == self.label(),
    {
        let r = match self {
            Button::A => "A",
            Button::B => "B",
            Button::X => "X",
            Button::Y => "Y",
            Button::DLeft => "D_LEFT",
            Button::DRight => "D_RIGHT",
            Button::DDown => "D_DOWN",
            Button::DUp => "D_UP",
            Button::Start => "START",
            Button::Z => "Z",
            Button::R => "R",
            Button::L => "L",
        };
        proof {
            reveal_strlit("A");
            reveal_strlit("B");
            reveal_strlit("X");
            reveal_strlit("Y");
            reveal_strlit("D_LEFT");
            reveal_strlit("D_RIGHT");
            reveal_strlit("D_DOWN");
            reveal_strlit("D_UP");
            reveal_strlit("START");
            reveal_strlit("Z");
            reveal_strlit("R");
            reveal_strlit("L");
        }
        r
    }
}

/// Squared radius of the circle that stick positions are clamped to.
pub const CLAMP_RADIUS_SQUARED: i32 = 6400;

/// Whether `q` is `v * 80 / sqrt(n)` truncated toward zero, for `n > 0`.
pub open spec fn is_scaled_toward_zero(q: int, v: int, n: int) -> bool {
    &&& q * q * n <= CLAMP_RADIUS_SQUARED * v * v
    &&& v >= 0 ==> q >= 0 && (q + 1) * (q + 1) * n > CLAMP_RADIUS_SQUARED * v * v
    &&& v < 0 ==> q <= 0 && (q - 1) * (q - 1) * n > CLAMP_RADIUS_SQUARED * v * v
}

/// Largest `q >= 0` with `q * q * n <= 6400 * m * m`, for `0 <= m * m <= n`.
fn scaled_magnitude(m: i32, n: i32) -> (q: i32)
    requires
        0 <= m <= 128,
        m * m <= n,
        0 < n <= 32768,
    ensures
        0 <= q <= 80,
        q * q * n <= CLAMP_RADIUS_SQUARED * m * m,
        (q + 1) * (q + 1) * n > CLAMP_RADIUS_SQUARED * m * m,
{
    let target: i64 = CLAMP_RADIUS_SQUARED as i64 * (m as i64 * m as i64);
    assert(target == CLAMP_RADIUS_SQUARED * m * m) by (nonlinear_arith)
        requires target == CLAMP_RADIUS_SQUARED as i64 * (m as i64 * m as i64);
    assert(0 <= target <= 6400 * 16384) by (nonlinear_arith)
        requires target == 6400 * m * m, 0 <= m <= 128;
    let mut q: i32 = 0;
    assert(q * q * n == 0) by (nonlinear_arith)
        requires q == 0;
    loop
        invariant
            0 <= q <= 80,
            q * q * n <= target,
            target == CLAMP_RADIUS_SQUARED * m * m,
            target <= 6400 * 16384,
            m * m <= n,
            0 < n <= 32768,
        decreases 81 - q,
    {
        assert(0 <= (q + 1) * (q + 1) <= 81 * 81) by (nonlinear_arith)
            requires 0 <= q <= 80;
        assert(0 <= (q + 1) * (q + 1) * n <= 81 * 81 * 32768) by (nonlinear_arith)
            requires 0 <= (q + 1) * (q + 1) <= 81 * 81, 0 < n <= 32768;
        let next: i64 = (q as i64 + 1) * (q as i64 + 1) * (n as i64);
        assert(next == (q + 1) * (q + 1) * n) by (nonlinear_arith)
            requires next == (q as i64 + 1) * (q as i64 + 1) * (n as i64);
        if next > target {
            return q;
        }
        proof {
            let p = q + 1;
            assert(p * p <= 6400) by (nonlinear_arith)
                requires p * p * n <= 6400 * m * m, m * m <= n, 0 < n;
            assert(p <= 80) by (nonlinear_arith)
                requires p * p <= 6400, p >= 0;
        }
        q = q + 1;
    }
}

/// Clamps a stick position to the circle of radius 80, scaling both axes
/// by the same factor and truncating toward zero.
pub fn clamp(x_in: i8, y_in: i8) -> (r: (i8, i8))
    ensures
        x_in * x_in + y_in * y_in <= CLAMP_RADIUS_SQUARED ==> r == (x_in, y_in),
        x_in * x_in + y_in * y_in > CLAMP_RADIUS_SQUARED ==> {
            &&& is_scaled_toward_zero(r.0 as int, x_in as int, x_in * x_in + y_in * y_in)
            &&& is_scaled_toward_zero(r.1 as int, y_in as int, x_in * x_in + y_in * y_in)
        },
{
    let x: i32 = x_in as i32;
    let y: i32 = y_in as i32;
    assert(0 <= x * x <= 16384 && 0 <= y * y <= 16384) by (nonlinear_arith)
        requires -128 <= x <= 127, -128 <= y <= 127;
    let n: i32 = x * x + y * y;
    if n <= CLAMP_RADIUS_SQUARED {
        return (x_in, y_in);
    }
    let mx: i32 = if x < 0 { -x } else { x };
    let my: i32 = if y < 0 { -y } else { y };
    assert(mx * mx == x * x && my * my == y * y) by (nonlinear_arith)
        requires mx == x || mx == -x, my == y || my == -y;
    let qx = scaled_magnitude(mx, n);
    let qy = scaled_magnitude(my, n);
    let rx: i8 = if x < 0 { -(qx as i8) } else { qx as i8 };
    let ry: i8 = if y < 0 { -(qy as i8) } else { qy as i8 };
    proof {
        assert(CLAMP_RADIUS_SQUARED * mx * mx == CLAMP_RADIUS_SQUARED * x * x) by (nonlinear_arith)
            requires mx * mx == x * x;
        assert(CLAMP_RADIUS_SQUARED * my * my == CLAMP_RADIUS_SQUARED * y * y) by (nonlinear_arith)
            requires my * my == y * y;
        assert(rx * rx == qx * qx && ry * ry == qy * qy) by (nonlinear_arith)
            requires rx == qx || rx == -qx, ry == qy || ry == -qy;
        assert(rx * rx * n == qx * qx * n && ry * ry * n == qy * qy * n) by (nonlinear_arith)
            requires rx * rx == qx * qx, ry * ry == qy * qy;
        if x < 0 {
            assert((rx - 1) * (rx - 1) == (qx + 1) * (qx + 1)) by (nonlinear_arith)
                requires rx == -qx;
            assert((rx - 1) * (rx - 1) * n == (qx + 1) * (qx + 1) * n) by (nonlinear_arith)
                requires (rx - 1) * (rx - 1) == (qx + 1) * (qx + 1);
        }
        if y < 0 {
            assert((ry - 1) * (ry - 1) == (qy + 1) * (qy + 1)) by (nonlinear_arith)
                requires ry == -qy;
            assert((ry - 1) * (ry - 1) * n == (qy + 1) * (qy + 1) * n) by (nonlinear_arith)
                requires (ry - 1) * (ry - 1) == (qy + 1) * (qy + 1);
        }
    }
    (rx, ry)
}

/// The signed axis value that a report byte encodes (the byte minus 128).
pub open spec fn axis_of(b: u8) -> int {
    b - 128
}

/// `v` limited to the range of `i8`.
pub open spec fn saturate_i8(v: int) -> int {
    if v < -128 {
        -128
    } else if v > 127 {
        127
    } else {
        v
    }
}

fn raw_axis(b: u8) -> (r: i8)
    ensures
        r == axis_of(b),
{
    (b as i16 - 128) as i8
}

fn saturating_sub_i8(a: i8, b: i8) -> (r: i8)
    ensures
        r == saturate_i8(a - b),
{
    let d: i16 = a as i16 - b as i16;
    if d < -128 {
        -128
    } else if d > 127 {
        127
    } else {
        d as i8
    }
}

/// Decoded state of one controller port: its current and previous report,
/// and the stick positions taken as neutral when it was first seen.
#[derive(Clone, Copy, Debug)]
pub struct Controller {
    pub buffer: [u8; 8],
    pub buffer_last: [u8; 8],
    pub startx: i8,
    pub starty: i8,
    pub c_startx: i8,
    pub c_starty: i8,
}

/// Whether the four stick bytes of a report are all zero (no controller).
pub open spec fn sticks_blank(b: Seq<u8>) -> bool {
    b[2] == 0 && b[3] == 0 && b[4] == 0 && b[5] == 0
}

/// The names of the buttons among the first `k` of `BUTTONS` held in `buffer`.
pub open spec fn held_names(buffer: Seq<u8>, k: int) -> Seq<Seq<char>>
    decreases k,
{
    if k <= 0 {
        seq![]
    } else {
        let b = BUTTONS@[k - 1];
        if Controller::held(buffer, b) {
            held_names(buffer, k - 1).push(b.label())
        } else {
            held_names(buffer, k - 1)
        }
    }
}

impl Controller {
    /// Whether `button` is held according to the report `buffer`.
    pub open spec fn held(buffer: Seq<u8>, button: Button) -> bool {
        buffer[button.byte()] & button.bit() != 0
    }

    pub fn new() -> (c: Controller)
        ensures
            c.buffer@ == seq![0u8; 8],
            c.buffer_last@ == seq![0u8; 8],
            c.startx == 0 && c.starty == 0 && c.c_startx == 0 && c.c_starty == 0,
    {
        let c = Controller {
            buffer: [0; 8],
            buffer_last: [0; 8],
            startx: 0,
            starty: 0,
            c_startx: 0,
            c_starty: 0,
        };
        assert(c.buffer@ =~= seq![0u8; 8]);
        assert(c.buffer_last@ =~= seq![0u8; 8]);
        c
    }

    /// Takes in a new report. The first report with a stick byte set fixes
    /// the neutral stick positions.
    pub fn from_buffer(&mut self, buffer: &[u8; 8])
        ensures
            final(self).buffer@ == buffer@,
            final(self).buffer_last == old(self).buffer,
            if sticks_blank(old(self).buffer@) && !sticks_blank(buffer@) {
                &&& final(self).startx == axis_of(buffer@[2])
                &&& final(self).starty == axis_of(buffer@[3])
                &&& final(self).c_startx == axis_of(buffer@[4])
                &&& final(self).c_starty == axis_of(buffer@[5])
            } else {
                &&& final(self).startx == old(self).startx
                &&& final(self).starty == old(self).starty
                &&& final(self).c_startx == old(self).c_startx
                &&& final(self).c_starty == old(self).c_starty
            },
    {
        let was_blank = self.buffer[2] == 0 && self.buffer[3] == 0 && self.buffer[4] == 0
            && self.buffer[5] == 0;
        let now_blank = buffer[2] == 0 && buffer[3] == 0 && buffer[4] == 0 && buffer[5] == 0;
        if was_blank && !now_blank {
            self.startx = raw_axis(buffer[2]);
            self.starty = raw_axis(buffer[3]);
            self.c_startx = raw_axis(buffer[4]);
            self.c_starty = raw_axis(buffer[5]);
        }
        self.buffer_last = self.buffer;
        self.buffer = *buffer;
    }

    /// The names of the held buttons, in the order of `BUTTONS`.
    pub fn pressed_buttons(&self) -> (r: Vec<String>)
        ensures
            r@.map_values(|s: String| s@) == held_names(self.buffer@, 12),
    {
        let mut buttons: Vec<String> = Vec::new();
        let mut i: usize = 0;
        while i < 12
            invariant
                i <= 12,
                buttons@.map_values(|s: String| s@) == held_names(self.buffer@, i as int),
            decreases 12 - i,
        {
            let button = BUTTONS[i];
            if self.is_down(&button) {
                let name = String::from_str(button.name());
                buttons.push(name);
            }
            assert(buttons@.map_values(|s: String| s@) =~= held_names(self.buffer@, i + 1));
            i = i + 1;
        }
        buttons
    }

    pub fn is_down(&self, button: &Button) -> (r: bool)
        ensures
            r == Self::held(self.buffer@, *button),
    {
        self.buffer[button.index() as usize] & button.mask() != 0
    }

    /// Whether `button` is held now and was not in the previous report.
    pub fn just_pressed(&self, button: &Button) -> (r: bool)
        ensures
            r == (Self::held(self.buffer@, *button) && !Self::held(self.buffer_last@, *button)),
    {
        let pressed_last = self.buffer_last[button.index() as usize] & button.mask() != 0;
        self.is_down(button) && !pressed_last
    }

    /// Main stick position relative to its neutral position.
    pub fn stick_pos(&self) -> (r: (i8, i8))
        ensures
            r.0 == saturate_i8(axis_of(self.buffer@[2]) - self.startx),
            r.1 == saturate_i8(axis_of(self.buffer@[3]) - self.starty),
    {
        let (x, y) = self.stick_raw();
        (saturating_sub_i8(x, self.startx), saturating_sub_i8(y, self.starty))
    }

    /// C stick position relative to its neutral position.
    pub fn c_stick_pos(&self) -> (r: (i8, i8))
        ensures
            r.0 == saturate_i8(axis_of(self.buffer@[4]) - self.c_startx),
            r.1 == saturate_i8(axis_of(self.buffer@[5]) - self.c_starty),
    {
        let (x, y) = self.c_stick_raw();
        (saturating_sub_i8(x, self.c_startx), saturating_sub_i8(y, self.c_starty))
    }

    /// Main stick position, clamped to the circle of radius 80.
    pub fn stick_clamp(&self) -> (r: (i8, i8))
        ensures
            ({
                let p = self.stick_pos_spec();
                p.0 * p.0 + p.1 * p.1 <= CLAMP_RADIUS_SQUARED ==> r == p
            }),
            ({
                let p = self.stick_pos_spec();
                let n = p.0 * p.0 + p.1 * p.1;
                n > CLAMP_RADIUS_SQUARED ==> is_scaled_toward_zero(r.0 as int, p.0 as int, n)
                    && is_scaled_toward_zero(r.1 as int, p.1 as int, n)
            }),
    {
        let pos = self.stick_pos();
        clamp(pos.0, pos.1)
    }

    /// C stick position, clamped to the circle of radius 80.
    pub fn c_stick_clamp(&self) -> (r: (i8, i8))
        ensures
            ({
                let p = self.c_stick_pos_spec();
                p.0 * p.0 + p.1 * p.1 <= CLAMP_RADIUS_SQUARED ==> r == p
            }),
            ({
                let p = self.c_stick_pos_spec();
                let n = p.0 * p.0 + p.1 * p.1;
                n > CLAMP_RADIUS_SQUARED ==> is_scaled_toward_zero(r.0 as int, p.0 as int, n)
                    && is_scaled_toward_zero(r.1 as int, p.1 as int, n)
            }),
    {
        let pos = self.c_stick_pos();
        clamp(pos.0, pos.1)
    }

    /// The main stick position that `stick_pos` returns.
    pub open spec fn stick_pos_spec(&self) -> (i8, i8) {
        (
            saturate_i8(axis_of(self.buffer@[2]) - self.startx) as i8,
            saturate_i8(axis_of(self.buffer@[3]) - self.starty) as i8,
        )
    }

    /// The C stick position that `c_stick_pos` returns.
    pub open spec fn c_stick_pos_spec(&self) -> (i8, i8) {
        (
            saturate_i8(axis_of(self.buffer@[4]) - self.c_startx) as i8,
            saturate_i8(axis_of(self.buffer@[5]) - self.c_starty) as i8,
        )
    }

    /// Main stick position as reported, without the neutral offset.
    pub fn stick_raw(&self) -> (r: (i8, i8))
        ensures
            r.0 == axis_of(self.buffer@[2]),
            r.1 == axis_of(self.buffer@[3]),
    {
        (raw_axis(self.buffer[2]), raw_axis(self.buffer[3]))
    }

    /// C stick position as reported, without the neutral offset.
    pub fn c_stick_raw(&self) -> (r: (i8, i8))
        ensures
            r.0 == axis_of(self.buffer@[4]),
            r.1 == axis_of(self.buffer@[5]),
    {
        (raw_axis(self.buffer[4]), raw_axis(self.buffer[5]))
    }
}

/// The eight bytes of port `port` in a 37-byte adapter report: a header
/// byte, then nine bytes per port, the first a status byte.
pub open spec fn port_bytes(report: Seq<u8>, port: int) -> Seq<u8> {
    report.subrange(2 + 9 * port, 2 + 9 * port + 8)
}

/// Hands each of up to four controllers its eight bytes of an adapter report.
pub fn update_controllers(controllers: &mut [Controller], buffer: &[u8; 37])
    requires
        old(controllers)@.len() <= 4,
    ensures
        final(controllers)@.len() == old(controllers)@.len(),
        forall|i: int|
            0 <= i < old(controllers)@.len() ==> {
                &&& #[trigger] final(controllers)@[i].buffer@ == port_bytes(buffer@, i)
                &&& final(controllers)@[i].buffer_last == old(controllers)@[i].buffer
            },
{
    let n = controllers.len();
    let mut i: usize = 0;
    while i < n
        invariant
            n == controllers@.len() == old(controllers)@.len(),
            n <= 4,
            i <= n,
            forall|j: int|
                0 <= j < i ==> {
                    &&& #[trigger] controllers@[j].buffer@ == port_bytes(buffer@, j)
                    &&& controllers@[j].buffer_last == old(controllers)@[j].buffer
                },
            forall|j: int| i <= j < n ==> #[trigger] controllers@[j] == old(controllers)@[j],
        decreases n - i,
    {
        let index: usize = 2 + 9 * i;
        let chunk: [u8; 8] = [
            buffer[index],
            buffer[index + 1],
            buffer[index + 2],
            buffer[index + 3],
            buffer[index + 4],
            buffer[index + 5],
            buffer[index + 6],
            buffer[index + 7],
        ];
        assert(chunk@ =~= port_bytes(buffer@, i as int));
        let mut c = controllers[i];
        c.from_buffer(&chunk);
        controllers[i] = c;
        i = i + 1;
    }
}

/// The buttons among the first `k` of `BUTTONS` that are held in `now` and
/// not in `before`, in the order of `BUTTONS`.
pub open spec fn newly_held(now: Seq<u8>, before: Seq<u8>, k: int) -> Seq<Button>
    decreases k,
{
    if k <= 0 {
        seq![]
    } else {
        let b = BUTTONS@[k - 1];
        if Controller::held(now, b) && !Controller::held(before, b) {
            newly_held(now, before, k - 1).push(b)
        } else {
            newly_held(now, before, k - 1)
        }
    }
}

impl Controller {
    /// The buttons pressed since the previous report, in the order of `BUTTONS`.
    pub fn buttons_just_pressed(&self) -> (r: Vec<Button>)
        ensures
            r@ == newly_held(self.buffer@, self.buffer_last@, 12),
    {
        let mut out: Vec<Button> = Vec::new();
        let mut i: usize = 0;
        while i < 12
            invariant
                i <= 12,
                out@ == newly_held(self.buffer@, self.buffer_last@, i as int),
            decreases 12 - i,
        {
            let button = BUTTONS[i];
            if self.just_pressed(&button) {
                out.push(button);
            }
            i = i + 1;
        }
        out
    }

    /// The buttons released since the previous report, in the order of `BUTTONS`.
    pub fn buttons_just_released(&self) -> (r: Vec<Button>)
        ensures
            r@ == newly_held(self.buffer_last@, self.buffer@, 12),
    {
        let mut out: Vec<Button> = Vec::new();
        let mut i: usize = 0;
        while i < 12
            invariant
                i <= 12,
                out@ == newly_held(self.buffer_last@, self.buffer@, i as int),
            decreases 12 - i,
        {
            let button = BUTTONS[i];
            let now = self.is_down(&button);
            let before = self.buffer_last[button.index() as usize] & button.mask() != 0;
            if before && !now {
                out.push(button);
            }
            i = i + 1;
        }
        out
    }
}

/// One adapter report and the time it was received, in microseconds.
pub struct ControllerPoll {
    pub buffer: [u8; 37],
    pub time: u64,
}

/// USB vendor id of the adapter.
pub const ADAPTER_VENDOR_ID: u16 = 0x057e;

/// USB product id of the adapter.
pub const ADAPTER_PRODUCT_ID: u16 = 0x0337;

/// Whether a USB device with these ids is the controller adapter.
pub fn is_adapter_id(vendor_id: u16, product_id: u16) -> (r: bool)
    ensures
        r == (vendor_id == ADAPTER_VENDOR_ID && product_id == ADAPTER_PRODUCT_ID),
{
    vendor_id == ADAPTER_VENDOR_ID && product_id == ADAPTER_PRODUCT_ID
}

} // verus!
