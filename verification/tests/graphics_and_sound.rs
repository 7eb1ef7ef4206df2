use lib::hardware::sms_vdp::graphics::{
    draw_line_graphics1, draw_line_graphics2, draw_line_mode4, draw_sprites_tms,
    gg_color_to_simple_color, tms9918_palette, vdp_color_to_simple_color, FakeSmsGraphics,
    SmsVdpGraphics, SmsVdpGraphicsImpler,
};
use lib::hardware::sms_vdp::debug::draw_tiles;
use lib::hardware::sms_vdp::{Kind, SmsVdpState, TvSystem};
use lib::hardware::sn76489::{FakeSn76489, Sn76489Audio, Sn76489Impler, Sn76489Interface, Sn76489State};
use lib::host_multimedia::{FakeAudio, FakeGraphics, SimpleAudio, SimpleColor, SimpleGraphics};

/// A screen that keeps its pixels.
struct Screen {
    width: u32,
    height: u32,
    pixels: Vec<SimpleColor>,
    renders: u32,
}

impl Screen {
    fn new() -> Screen {
        Screen { width: 0, height: 0, pixels: Vec::new(), renders: 0 }
    }
    fn at(&self, x: u32, y: u32) -> SimpleColor {
        self.pixels[(y * self.width + x) as usize]
    }
}

// The spec functions of the trait are for the verifier alone; nothing calls
// them at run time.
impl SimpleGraphics for Screen {
    fn spec_resolution(&self) -> (u32, u32) {
        unreachable!()
    }
    fn spec_paint(&self, _x: u32, _y: u32, _color: SimpleColor) -> Self {
        unreachable!()
    }
    fn spec_get(&self, _x: u32, _y: u32) -> SimpleColor {
        unreachable!()
    }
    fn spec_set_resolution(&self, _width: u32, _height: u32) -> Self {
        unreachable!()
    }
    fn spec_render(&self) -> Self {
        unreachable!()
    }
    fn set_resolution(&mut self, width: u32, height: u32) -> Result<(), String> {
        if width != self.width || height != self.height {
            self.width = width;
            self.height = height;
            self.pixels = vec![SimpleColor { red: 1, green: 2, blue: 3 }; (width * height) as usize];
        }
        Ok(())
    }
    fn resolution(&self) -> (u32, u32) {
        (self.width, self.height)
    }
    fn paint(&mut self, x: u32, y: u32, color: SimpleColor) {
        let w = self.width;
        self.pixels[(y * w + x) as usize] = color;
    }
    fn get(&self, x: u32, y: u32) -> SimpleColor {
        self.at(x, y)
    }
    fn render(&mut self) -> Result<(), String> {
        self.renders += 1;
        Ok(())
    }
}

fn rgb(red: u8, green: u8, blue: u8) -> SimpleColor {
    SimpleColor { red, green, blue }
}

#[test]
fn color_conversions() {
    assert_eq!(vdp_color_to_simple_color(0x00), rgb(0, 0, 0));
    assert_eq!(vdp_color_to_simple_color(0x3F), rgb(0xC0, 0xC0, 0xC0));
    assert_eq!(vdp_color_to_simple_color(0x03), rgb(0xC0, 0, 0));
    assert_eq!(vdp_color_to_simple_color(0x0C), rgb(0, 0xC0, 0));
    assert_eq!(vdp_color_to_simple_color(0x30), rgb(0, 0, 0xC0));
    assert_eq!(vdp_color_to_simple_color(0x16), rgb(0x80, 0x40, 0x40));
    assert_eq!(gg_color_to_simple_color(0x0F00), rgb(0, 0, 0xF0));
    assert_eq!(gg_color_to_simple_color(0x00F0), rgb(0, 0xF0, 0));
    assert_eq!(gg_color_to_simple_color(0x000F), rgb(0xF0, 0, 0));
    assert_eq!(gg_color_to_simple_color(0xF123), rgb(0x30, 0x20, 0x10));
    assert_eq!(tms9918_palette(2), rgb(0x21, 0xC8, 0x42));
    assert_eq!(tms9918_palette(15), rgb(0xFF, 0xFF, 0xFF));
}

fn vdp() -> SmsVdpState {
    SmsVdpState::new(Kind::Sms, TvSystem::Ntsc)
}

#[test]
fn graphics1_line() {
    let mut v = vdp();
    v.registers[1] = 0x40; // display on, graphics I
    v.registers[2] = 0x0E; // name table 0x3800
    v.registers[3] = 0x80; // color table 0x2000
    v.registers[4] = 0x00; // pattern table 0
    v.registers[5] = 0x7F; // sprite attributes 0x3F80
    v.vram[0x3F80] = 0xD0; // no sprites
    v.vram[0x3800] = 1; // name 1 at tile 0
    v.vram[0x2000] = 0xF4; // colors of names 0..7: white on dark blue
    v.vram[1] = 0x80; // pattern of name 1, line 0 (name + line)
    v.v = 0;
    let mut s = SmsVdpGraphicsImpler { graphics: Screen::new(), vdp: v };
    assert!(draw_line_graphics1(&mut s).is_ok());
    assert_eq!(s.graphics.resolution(), (256, 192));
    assert_eq!(s.graphics.at(0, 0), tms9918_palette(15));
    assert_eq!(s.graphics.at(1, 0), tms9918_palette(4));
    assert_eq!(s.graphics.at(8, 0), tms9918_palette(4));
}

#[test]
fn graphics2_line_uses_color_per_line() {
    let mut v = vdp();
    v.registers[0] = 0x02; // M2
    v.registers[1] = 0x40;
    v.registers[2] = 0x0E;
    v.registers[3] = 0xFF; // color table 0x2000
    v.registers[4] = 0x03; // pattern table 0
    v.registers[5] = 0x7F;
    v.vram[0x3F80] = 0xD0;
    v.vram[0x3800] = 0; // name 0
    v.vram[0] = 0x0F; // pattern: right half set
    v.vram[0x2000] = 0x6C; // dark red on dark green
    let mut s = SmsVdpGraphicsImpler { graphics: Screen::new(), vdp: v };
    assert!(draw_line_graphics2(&mut s).is_ok());
    assert_eq!(s.graphics.at(0, 0), tms9918_palette(0xC));
    assert_eq!(s.graphics.at(7, 0), tms9918_palette(6));
}

#[test]
fn display_off_paints_black_and_last_line_renders() {
    let mut v = vdp();
    v.v = 5;
    let mut s = SmsVdpGraphicsImpler { graphics: Screen::new(), vdp: v };
    assert!(draw_line_graphics1(&mut s).is_ok());
    assert_eq!(s.graphics.at(100, 5), rgb(0, 0, 0));
    s.vdp.v = 261;
    assert!(draw_line_graphics1(&mut s).is_ok());
    assert_eq!(s.graphics.renders, 1);
    s.vdp.v = 200;
    assert!(draw_line_graphics1(&mut s).is_ok());
    assert_eq!(s.graphics.renders, 1);
}

#[test]
fn tms_sprites_and_their_flags() {
    let mut v = vdp();
    v.registers[1] = 0x40;
    v.registers[5] = 0x7F; // sprite attributes 0x3F80
    v.registers[6] = 0x07; // sprite patterns 0x3800
    v.v = 10;
    // two overlapping sprites at y = 10 (stored as 9), x = 20
    for i in 0..2 {
        let base = 0x3F80 + 4 * i;
        v.vram[base] = 9;
        v.vram[base + 1] = 20;
        v.vram[base + 2] = 0;
        v.vram[base + 3] = 0x0F; // white
    }
    v.vram[0x3F88] = 0xD0;
    v.vram[0x3800] = 0x80; // leftmost pixel
    let mut s = SmsVdpGraphicsImpler { graphics: Screen::new(), vdp: v };
    s.graphics.set_resolution(256, 192).unwrap();
    assert!(draw_sprites_tms(&mut s).is_ok());
    assert_eq!(s.graphics.at(20, 10), tms9918_palette(15));
    assert_eq!(s.vdp.status_flags & 0x20, 0x20);

    // five sprites on a line: the fifth sets the overflow flag and its number
    let mut v = vdp();
    v.registers[5] = 0x7F;
    v.v = 10;
    for i in 0..5 {
        v.vram[0x3F80 + 4 * i] = 9;
        v.vram[0x3F80 + 4 * i + 1] = (40 * i) as u8;
    }
    v.vram[0x3F94] = 0xD0;
    let mut s = SmsVdpGraphicsImpler { graphics: Screen::new(), vdp: v };
    s.graphics.set_resolution(256, 192).unwrap();
    assert!(draw_sprites_tms(&mut s).is_ok());
    assert_eq!(s.vdp.status_flags, 0x40 | 4);
}

fn mode4_vdp() -> SmsVdpState {
    let mut v = vdp();
    v.registers[0] = 0x04; // M4
    v.registers[1] = 0x40; // display on
    v.registers[2] = 0x0E; // name table 0x3800
    v.registers[5] = 0x7F; // sprite attributes 0x3F00
    v.registers[6] = 0x00;
    v.vram[0x3F00] = 0xD0; // no sprites
    v
}

#[test]
fn mode4_tile_colors() {
    let mut v = mode4_vdp();
    // name table entry 0: pattern 1, sprite palette
    v.vram[0x3800] = 1;
    v.vram[0x3801] = 0x08;
    // pattern 1, line 0: leftmost pixel index 0b0011 (planes 0 and 1)
    v.vram[32] = 0x80;
    v.vram[33] = 0x80;
    v.cram[16 + 3] = 0x03; // red
    v.cram[16] = 0x30; // blue
    let mut s = SmsVdpGraphicsImpler { graphics: Screen::new(), vdp: v };
    assert!(draw_line_mode4(&mut s).is_ok());
    assert_eq!(s.graphics.resolution(), (256, 192));
    assert_eq!(s.graphics.at(0, 0), rgb(0xC0, 0, 0));
    assert_eq!(s.graphics.at(1, 0), rgb(0, 0, 0xC0));
}

#[test]
fn mode4_sprite_over_background() {
    let mut v = mode4_vdp();
    v.v = 3;
    // sprite 0 on lines 3.. (stored y = 2), x = 16, pattern 2
    v.vram[0x3F00] = 2;
    v.vram[0x3F01] = 0xD0;
    v.vram[0x3F80] = 16;
    v.vram[0x3F81] = 2;
    // pattern 2, line 0: leftmost pixel index 1
    v.vram[64] = 0x80;
    v.cram[17] = 0x0C; // green
    v.cram[0] = 0x00;
    let mut s = SmsVdpGraphicsImpler { graphics: Screen::new(), vdp: v };
    assert!(draw_line_mode4(&mut s).is_ok());
    assert_eq!(s.graphics.at(16, 3), rgb(0, 0xC0, 0));
    assert_eq!(s.graphics.at(17, 3), rgb(0, 0, 0));
}

#[test]
fn mode4_game_gear_window() {
    let mut v = mode4_vdp();
    v.kind = Kind::Gg;
    v.v = 24;
    v.cram[0] = 0x0F00;
    let mut s = SmsVdpGraphicsImpler { graphics: Screen::new(), vdp: v };
    assert!(draw_line_mode4(&mut s).is_ok());
    assert_eq!(s.graphics.resolution(), (160, 144));
    assert_eq!(s.graphics.at(0, 0), rgb(0, 0, 0xF0));
    // lines above the window draw nothing
    let mut v = mode4_vdp();
    v.kind = Kind::Gg;
    v.v = 3;
    let mut s = SmsVdpGraphicsImpler { graphics: Screen::new(), vdp: v };
    assert!(draw_line_mode4(&mut s).is_ok());
    assert_eq!(s.graphics.resolution(), (0, 0));
}

#[test]
fn draw_line_picks_the_mode() {
    let mut v = mode4_vdp();
    v.cram[0] = 0x3F;
    let mut s = SmsVdpGraphicsImpler { graphics: Screen::new(), vdp: v };
    assert!(s.draw_line().is_ok());
    assert_eq!(s.graphics.at(0, 0), rgb(0xC0, 0xC0, 0xC0));
    let mut fake = SmsVdpGraphicsImpler { graphics: FakeSmsGraphics, vdp: mode4_vdp() };
    assert!(fake.draw_line().is_ok());
    let mut fg = SmsVdpGraphicsImpler { graphics: FakeGraphics(0, 0), vdp: mode4_vdp() };
    assert!(fg.draw_line().is_ok());
    assert_eq!(fg.graphics.resolution(), (256, 192));
}

/// A sound device that keeps every buffer it is sent.
struct Speaker {
    buffer: Vec<i16>,
    sent: Vec<Vec<i16>>,
    /// How many buffers the device takes before it fails.
    takes: usize,
}

// The spec functions of the trait are for the verifier alone.
impl SimpleAudio for Speaker {
    fn spec_buffer_len(&self) -> usize {
        unreachable!()
    }
    fn spec_buffer_set(&self, _i: usize, _value: i16) -> Self {
        unreachable!()
    }
    fn spec_queue_buffer(&self) -> Self {
        unreachable!()
    }
    fn spec_configure(&self, _frequency: u32, _buffer_size: u16) -> Self {
        unreachable!()
    }
    fn spec_play(&self) -> Self {
        unreachable!()
    }
    fn spec_pause(&self) -> Self {
        unreachable!()
    }
    fn configure(&mut self, _frequency: u32, _buffer_size: u16) -> Result<(), String> {
        Ok(())
    }
    fn play(&mut self) -> Result<(), String> {
        Ok(())
    }
    fn pause(&mut self) -> Result<(), String> {
        Ok(())
    }
    fn buffer_len(&self) -> usize {
        self.buffer.len()
    }
    fn buffer_set(&mut self, i: usize, value: i16) {
        self.buffer[i] = value;
    }
    fn queue_buffer(&mut self) -> Result<(), String> {
        if self.sent.len() >= self.takes {
            return Err("device full".to_string());
        }
        self.sent.push(self.buffer.clone());
        Ok(())
    }
    fn clear(&mut self) -> Result<(), String> {
        Ok(())
    }
}

#[test]
fn silent_chip_makes_silence() {
    let mut imp = Sn76489Impler {
        sn76489: Sn76489State::new(),
        audio: Speaker { buffer: vec![7; 4], sent: Vec::new(), takes: usize::MAX },
    };
    assert!(imp.queue(8).is_ok());
    assert_eq!(imp.audio.sent, vec![vec![0; 4], vec![0; 4]]);
    assert_eq!(imp.sn76489.cycles, 8);
}

#[test]
fn square_wave_of_tone_channel() {
    let mut chip = Sn76489State::new();
    chip.write(0x90); // channel 0 volume 0: loudest
    chip.write(0x82); // channel 0 tone 2
    let mut imp = Sn76489Impler { sn76489: chip, audio: Speaker { buffer: vec![0; 8], sent: Vec::new(), takes: usize::MAX } };
    assert!(imp.queue(1).is_ok());
    // the counter starts at 1, then the polarity flips every 2 samples
    assert_eq!(imp.audio.sent, vec![vec![2010, -2010, -2010, 2010, 2010, -2010, -2010, 2010]]);
    assert_eq!(imp.sn76489.cycles, 8);
}

#[test]
fn no_sound_when_already_there() {
    let mut imp = Sn76489Impler { sn76489: Sn76489State::new(), audio: FakeAudio };
    imp.sn76489.cycles = 100;
    assert!(imp.queue(50).is_ok());
    assert_eq!(imp.sn76489.cycles, 100);
    let mut fake = Sn76489Impler { sn76489: FakeSn76489, audio: FakeAudio };
    assert!(fake.queue(1000).is_ok());
}

#[test]
fn tiles_of_mode4_with_scroll_marks() {
    let mut v = mode4_vdp();
    v.registers[0] = 0x04 | 0x40; // M4, top rows locked against horizontal scroll
    // tile (1, 0): pattern 1 with the sprite palette
    v.vram[0x3802] = 1;
    v.vram[0x3803] = 8;
    // line 1 of pattern 1: the first pixel has palette index 1
    v.vram[0x20 + 4] = 0x80;
    v.cram[16] = 0x0C;
    v.cram[17] = 0x03;
    let mut screen = Screen::new();
    draw_tiles(&v, &mut screen).unwrap();
    assert_eq!(screen.resolution(), (256, 224));
    assert_eq!(screen.renders, 1);
    assert_eq!(screen.at(8, 1), rgb(0xC0, 0, 0));
    assert_eq!(screen.at(9, 1), rgb(0, 0xC0, 0));
    // vertical scroll 0: row 0 in magenta; horizontal scroll 0: column 0
    assert_eq!(screen.at(5, 0), rgb(0xF0, 0, 0xF0));
    assert_eq!(screen.at(0, 100), rgb(0xF0, 0, 0xF0));
    // the locked rows end at row 16, in yellow
    assert_eq!(screen.at(100, 16), rgb(0xF0, 0xF0, 0));
    assert_eq!(screen.at(0, 16), rgb(0xF0, 0xF0, 0));
}

#[test]
fn tiles_of_graphics2() {
    let mut v = vdp();
    v.registers[0] = 0x02; // M2
    v.registers[2] = 0x0E; // name table 0x3800
    v.registers[3] = 0x80; // colors at 0x2000
    v.vram[0x3800] = 2;
    v.vram[16] = 0xF0;
    v.vram[0x2010] = 0x4F;
    let mut screen = Screen::new();
    draw_tiles(&v, &mut screen).unwrap();
    assert_eq!(screen.resolution(), (256, 192));
    assert_eq!(screen.at(0, 0), tms9918_palette(4));
    assert_eq!(screen.at(3, 0), tms9918_palette(4));
    assert_eq!(screen.at(4, 0), tms9918_palette(15));
}

#[test]
fn tiles_of_graphics1() {
    let mut v = vdp();
    v.registers[2] = 0x0E; // name table 0x3800
    v.registers[3] = 0x80; // colors at 0x2000
    v.vram[0x3801] = 9;
    v.vram[0x2001] = 0x4F;
    v.vram[9] = 1;
    v.vram[10] = 0xFE;
    let mut screen = Screen::new();
    draw_tiles(&v, &mut screen).unwrap();
    // the whole line shows the color the pattern's lowest bit selects
    assert_eq!(screen.at(8, 0), tms9918_palette(4));
    assert_eq!(screen.at(15, 0), tms9918_palette(4));
    assert_eq!(screen.at(8, 1), tms9918_palette(15));
    assert_eq!(screen.at(15, 1), tms9918_palette(15));
}

#[test]
fn tiles_of_other_modes_draw_nothing() {
    let mut v = vdp();
    v.registers[1] = 0x10; // M1: text mode
    let mut screen = Screen::new();
    draw_tiles(&v, &mut screen).unwrap();
    assert_eq!(screen.renders, 0);
    assert_eq!(screen.resolution(), (0, 0));
}

#[test]
fn queue_stops_at_the_first_device_error() {
    let mut imp = Sn76489Impler {
        sn76489: Sn76489State::new(),
        audio: Speaker { buffer: vec![7; 4], sent: Vec::new(), takes: 1 },
    };
    assert_eq!(imp.queue(20), Err("device full".to_string()));
    // one buffer sent, the second made and refused, nothing after it
    assert_eq!(imp.audio.sent.len(), 1);
    assert_eq!(imp.sn76489.cycles, 8);
}

#[test]
fn queue_sends_as_many_buffers_as_the_target_needs() {
    let mut imp = Sn76489Impler {
        sn76489: Sn76489State::new(),
        audio: Speaker { buffer: vec![0; 4], sent: Vec::new(), takes: usize::MAX },
    };
    imp.sn76489.cycles = 3;
    assert!(imp.queue(12).is_ok());
    // ceil((12 - 3) / 4) = 3 buffers
    assert_eq!(imp.audio.sent.len(), 3);
    assert_eq!(imp.sn76489.cycles, 15);
}
