use std::cell::RefCell;
use std::rc::Rc;

use emulator::cpu::{Fault, Outcome, RunEnd};
use emulator::machines::spaceinvaders::controls::{
    button_for_key, control_for_event, key_for_code, press, press_all, Control, Key, KeyEvent,
};
use emulator::machines::spaceinvaders::sound::{
    is_falling, is_rising, port3_sounds, port5_sounds, Sound, SoundAction,
};
use emulator::machines::spaceinvaders::video::{
    color_of_row, frame_pixels, Pixel, GREEN, RED, WHITE,
};
use emulator::machines::{
    Button, ButtonState, Controller, Machine, Player, Screen, SpaceInvaders, SpaceInvadersIO,
    Speaker, IO,
};

type Log = Rc<RefCell<Vec<String>>>;

struct LoggingSpeaker {
    log: Log,
}

impl Speaker for LoggingSpeaker {
    fn start_wav_file(&mut self, file_name: &str) {
        self.log.borrow_mut().push(format!("start {}", file_name));
    }

    fn stop_wav_file(&mut self, file_name: &str) {
        self.log.borrow_mut().push(format!("stop {}", file_name));
    }

    fn play_wav_file(&mut self, file_name: &str) {
        self.log.borrow_mut().push(format!("play {}", file_name));
    }
}

struct LoggingScreen {
    log: Log,
}

impl Screen for LoggingScreen {
    fn clear(&mut self) {
        self.log.borrow_mut().push("clear".to_string());
    }

    fn draw(&mut self, x: i32, y: i32, color: (u8, u8, u8)) {
        self.log.borrow_mut().push(format!("draw {} {} {:?}", x, y, color));
    }

    fn present(&mut self) {
        self.log.borrow_mut().push("present".to_string());
    }
}

struct ScriptedController {
    frames: Vec<Vec<(Player, Button)>>,
}

impl Controller for ScriptedController {
    fn get_button_states(&mut self) -> Vec<(Player, Button)> {
        if self.frames.is_empty() {
            Vec::new()
        } else {
            self.frames.remove(0)
        }
    }
}

fn new_log() -> Log {
    Rc::new(RefCell::new(Vec::new()))
}

fn taken(log: &Log) -> Vec<String> {
    log.borrow_mut().drain(..).collect()
}

fn ports(log: &Log) -> SpaceInvadersIO {
    SpaceInvadersIO::new(Box::new(LoggingSpeaker { log: log.clone() }))
}

fn cabinet(
    program: Vec<u8>,
    frames: Vec<Vec<(Player, Button)>>,
) -> (SpaceInvaders, Log, Log) {
    let sounds = new_log();
    let screen = new_log();
    let machine = SpaceInvaders::new(
        program,
        Box::new(LoggingSpeaker { log: sounds.clone() }),
        Box::new(LoggingScreen { log: screen.clone() }),
        Box::new(ScriptedController { frames }),
    );
    (machine, sounds, screen)
}

#[test]
fn ports_after_power_on() {
    let io = ports(&new_log());
    assert_eq!(io.port1, 0b0000_1000);
    assert_eq!(io.port2, 0);
    assert_eq!(io.input(1), Some(0x08));
    assert_eq!(io.input(2), Some(0x00));
    assert_eq!(io.input(3), Some(0x00));
}

#[test]
fn only_ports_one_to_three_can_be_read() {
    let io = ports(&new_log());
    for port in 0..=255u8 {
        assert_eq!(io.input(port).is_some(), (1..=3).contains(&port), "port {}", port);
    }
}

#[test]
fn only_ports_two_to_six_can_be_written() {
    let log = new_log();
    let mut io = ports(&log);
    for port in 0..=255u8 {
        assert_eq!(io.output(port, 0), (2..=6).contains(&port), "port {}", port);
    }
    assert!(taken(&log).is_empty());
    assert_eq!(io.input(1), Some(0x08));
    assert_eq!(io.input(2), Some(0x00));
    assert_eq!(io.input(3), Some(0x00));
}

#[test]
fn input_ports_read_what_the_host_set() {
    let mut io = ports(&new_log());
    io.port1 = 0x5a;
    io.port2 = 0xa5;
    assert_eq!(io.input(1), Some(0x5a));
    assert_eq!(io.input(2), Some(0xa5));
}

#[test]
fn the_shift_register_takes_new_bytes_at_the_top() {
    let mut io = ports(&new_log());
    assert!(io.output(4, 0xab));
    assert_eq!(io.input(3), Some(0xab));
    assert!(io.output(4, 0xcd));
    assert_eq!(io.input(3), Some(0xcd));
    assert!(io.output(2, 4));
    assert_eq!(io.input(3), Some(0xda));
    assert!(io.output(2, 3));
    assert_eq!(io.input(3), Some(0x6d));
    assert!(io.output(2, 7));
    assert_eq!(io.input(3), Some(0xd5));
    assert!(io.output(2, 0x0f));
    assert_eq!(io.input(3), Some(0xd5));
    assert!(io.output(2, 0xf8));
    assert_eq!(io.input(3), Some(0xcd));
    assert!(io.output(4, 0x01));
    assert_eq!(io.input(3), Some(0x01));
    assert!(io.output(2, 1));
    assert_eq!(io.input(3), Some(0x03));
}

#[test]
fn port_three_triggers_sounds_on_edges() {
    let log = new_log();
    let mut io = ports(&log);
    assert!(io.output(3, 0x01));
    assert_eq!(taken(&log), vec!["start ufo.wav"]);
    io.output(3, 0x01);
    assert!(taken(&log).is_empty());
    io.output(3, 0x03);
    assert_eq!(taken(&log), vec!["play shoot.wav"]);
    io.output(3, 0x02);
    assert_eq!(taken(&log), vec!["stop ufo.wav"]);
    io.output(3, 0x0e);
    assert_eq!(taken(&log), vec!["play player_dies.wav", "play invader_dies.wav"]);
    io.output(3, 0x00);
    assert!(taken(&log).is_empty());
    io.output(3, 0xff);
    assert_eq!(
        taken(&log),
        vec!["start ufo.wav", "play shoot.wav", "play player_dies.wav", "play invader_dies.wav"]
    );
    io.output(3, 0xf0);
    assert_eq!(taken(&log), vec!["stop ufo.wav"]);
}

#[test]
fn port_five_triggers_the_step_on_a_rising_edge() {
    let log = new_log();
    let mut io = ports(&log);
    assert!(io.output(5, 0x01));
    assert_eq!(taken(&log), vec!["play bomp.wav"]);
    io.output(5, 0x01);
    io.output(5, 0x03);
    io.output(5, 0x02);
    assert!(taken(&log).is_empty());
    io.output(5, 0x03);
    assert_eq!(taken(&log), vec!["play bomp.wav"]);
}

#[test]
fn other_ports_are_silent() {
    let log = new_log();
    let mut io = ports(&log);
    io.output(2, 0xff);
    io.output(4, 0xff);
    io.output(6, 0xff);
    assert!(taken(&log).is_empty());
}

#[test]
fn sounds_of_a_port_write() {
    assert_eq!(
        port3_sounds(0x00, 0x0f),
        vec![
            SoundAction::Start(Sound::Ufo),
            SoundAction::Play(Sound::PlayerShoot),
            SoundAction::Play(Sound::PlayerDies),
            SoundAction::Play(Sound::InvaderDies),
        ]
    );
    assert_eq!(port3_sounds(0x01, 0x00), vec![SoundAction::Stop(Sound::Ufo)]);
    assert_eq!(port3_sounds(0x0f, 0x0f), Vec::new());
    assert_eq!(port3_sounds(0x0e, 0x00), Vec::new());
    assert_eq!(port3_sounds(0x00, 0xf0), Vec::new());
    assert_eq!(port3_sounds(0x04, 0x0c), vec![SoundAction::Play(Sound::InvaderDies)]);
    assert_eq!(port5_sounds(0x00, 0x01), vec![SoundAction::Play(Sound::Bomp)]);
    assert_eq!(port5_sounds(0x01, 0x01), Vec::new());
    assert_eq!(port5_sounds(0x01, 0x00), Vec::new());
    assert_eq!(port5_sounds(0x00, 0xfe), Vec::new());
}

#[test]
fn edges() {
    assert!(is_rising(0x00, 0x10, 4));
    assert!(!is_rising(0x10, 0x10, 4));
    assert!(!is_rising(0x10, 0x00, 4));
    assert!(!is_rising(0x00, 0x00, 4));
    assert!(is_falling(0x80, 0x7f, 7));
    assert!(!is_falling(0x80, 0x80, 7));
    assert!(!is_falling(0x00, 0x80, 7));
}

#[test]
fn sound_files() {
    assert_eq!(Sound::Ufo.file_name(), "ufo.wav");
    assert_eq!(Sound::PlayerShoot.file_name(), "shoot.wav");
    assert_eq!(Sound::PlayerDies.file_name(), "player_dies.wav");
    assert_eq!(Sound::InvaderDies.file_name(), "invader_dies.wav");
    assert_eq!(Sound::Bomp.file_name(), "bomp.wav");
}

#[test]
fn buttons_drive_the_bits_of_port_one() {
    let first = Player::Player1;
    assert_eq!(press(0x08, first, Button::Coin(ButtonState::Down)), 0x09);
    assert_eq!(press(0x08, first, Button::OnePlayer(ButtonState::Down)), 0x0c);
    assert_eq!(press(0x08, first, Button::Shoot(ButtonState::Down)), 0x18);
    assert_eq!(press(0x08, first, Button::Left(ButtonState::Down)), 0x28);
    assert_eq!(press(0x08, first, Button::Right(ButtonState::Down)), 0x48);
    assert_eq!(press(0xff, first, Button::Coin(ButtonState::Up)), 0xfe);
    assert_eq!(press(0xff, first, Button::OnePlayer(ButtonState::Up)), 0xfb);
    assert_eq!(press(0xff, first, Button::Shoot(ButtonState::Up)), 0xef);
    assert_eq!(press(0xff, first, Button::Left(ButtonState::Up)), 0xdf);
    assert_eq!(press(0xff, first, Button::Right(ButtonState::Up)), 0xbf);
    assert_eq!(press(0x09, first, Button::Coin(ButtonState::Down)), 0x09);
    assert_eq!(press(0x08, first, Button::Coin(ButtonState::Up)), 0x08);
}

#[test]
fn the_second_player_has_no_bits_in_port_one() {
    for button in [
        Button::Coin(ButtonState::Down),
        Button::OnePlayer(ButtonState::Up),
        Button::Shoot(ButtonState::Down),
        Button::Left(ButtonState::Up),
        Button::Right(ButtonState::Down),
    ] {
        assert_eq!(press(0x5a, Player::Player2, button), 0x5a);
    }
}

#[test]
fn button_events_apply_in_order() {
    let events = vec![
        (Player::Player1, Button::Coin(ButtonState::Down)),
        (Player::Player1, Button::Left(ButtonState::Down)),
        (Player::Player2, Button::Shoot(ButtonState::Down)),
        (Player::Player1, Button::Coin(ButtonState::Up)),
        (Player::Player1, Button::Shoot(ButtonState::Down)),
        (Player::Player1, Button::Shoot(ButtonState::Up)),
        (Player::Player1, Button::Shoot(ButtonState::Down)),
    ];
    assert_eq!(press_all(0x08, &events), 0x38);
    assert_eq!(press_all(0x08, &Vec::new()), 0x08);
    let mut io = ports(&new_log());
    io.press_buttons(&events);
    assert_eq!(io.input(1), Some(0x38));
    assert_eq!(io.input(2), Some(0x00));
}

#[test]
fn keys_map_to_buttons() {
    assert_eq!(button_for_key(Key::C, ButtonState::Down), Some(Button::Coin(ButtonState::Down)));
    assert_eq!(
        button_for_key(Key::Num1, ButtonState::Up),
        Some(Button::OnePlayer(ButtonState::Up))
    );
    assert_eq!(button_for_key(Key::Left, ButtonState::Down), Some(Button::Left(ButtonState::Down)));
    assert_eq!(button_for_key(Key::Right, ButtonState::Up), Some(Button::Right(ButtonState::Up)));
    assert_eq!(
        button_for_key(Key::Space, ButtonState::Down),
        Some(Button::Shoot(ButtonState::Down))
    );
    assert_eq!(button_for_key(Key::Escape, ButtonState::Down), None);
    assert_eq!(button_for_key(Key::Other, ButtonState::Up), None);
}

#[test]
fn window_events_map_to_controls() {
    assert_eq!(control_for_event(KeyEvent::Quit), Control::Quit);
    assert_eq!(control_for_event(KeyEvent::Other), Control::Ignored);
    assert_eq!(control_for_event(KeyEvent::Down(Key::Escape)), Control::Ignored);
    assert_eq!(control_for_event(KeyEvent::Up(Key::Other)), Control::Ignored);
    assert_eq!(
        control_for_event(KeyEvent::Down(Key::Space)),
        Control::Press(Player::Player1, Button::Shoot(ButtonState::Down))
    );
    assert_eq!(
        control_for_event(KeyEvent::Up(Key::Space)),
        Control::Press(Player::Player1, Button::Shoot(ButtonState::Up))
    );
    assert_eq!(
        control_for_event(KeyEvent::Down(Key::C)),
        Control::Press(Player::Player1, Button::Coin(ButtonState::Down))
    );
    assert_eq!(
        control_for_event(KeyEvent::Up(Key::Left)),
        Control::Press(Player::Player1, Button::Left(ButtonState::Up))
    );
}

#[test]
fn key_codes_map_to_keys() {
    assert_eq!(key_for_code("KeyC"), Key::C);
    assert_eq!(key_for_code("Digit1"), Key::Num1);
    assert_eq!(key_for_code("ArrowLeft"), Key::Left);
    assert_eq!(key_for_code("ArrowRight"), Key::Right);
    assert_eq!(key_for_code("Space"), Key::Space);
    assert_eq!(key_for_code("KeyD"), Key::Other);
    assert_eq!(key_for_code("keyc"), Key::Other);
    assert_eq!(key_for_code(""), Key::Other);
}

#[test]
fn row_colours() {
    assert_eq!(color_of_row(256), GREEN);
    assert_eq!(color_of_row(181), GREEN);
    assert_eq!(color_of_row(180), WHITE);
    assert_eq!(color_of_row(50), WHITE);
    assert_eq!(color_of_row(49), RED);
    assert_eq!(color_of_row(34), RED);
    assert_eq!(color_of_row(33), WHITE);
    assert_eq!(color_of_row(1), WHITE);
    assert_eq!((GREEN, WHITE, RED), ((0, 255, 0), (255, 255, 255), (255, 0, 0)));
}

#[test]
fn a_blank_video_memory_shows_nothing() {
    let (machine, _, _) = cabinet(vec![0x00], Vec::new());
    assert_eq!(frame_pixels(&machine.cpu().state), Vec::new());
}

#[test]
fn lit_dots_become_pixels_column_by_column() {
    let mut cpu = emulator::cpu::Cpu::new(Vec::new());
    cpu.state.memory[0x2400] = 0x01;
    cpu.state.memory[0x2400 + 27] = 0x03;
    cpu.state.memory[0x2400 + 32 * 5 + 31] = 0x80;
    cpu.state.memory[0x3fff] = 0x80;
    cpu.state.memory[0x23ff] = 0xff;
    cpu.state.memory[0x4000] = 0xff;
    assert_eq!(
        frame_pixels(&cpu.state),
        vec![
            Pixel { x: 0, y: 256, color: GREEN },
            Pixel { x: 0, y: 40, color: RED },
            Pixel { x: 0, y: 39, color: RED },
            Pixel { x: 5, y: 1, color: WHITE },
            Pixel { x: 223, y: 1, color: WHITE },
        ]
    );
}

#[test]
fn a_full_video_memory_lights_every_dot() {
    let mut cpu = emulator::cpu::Cpu::new(Vec::new());
    for at in 0x2400..0x4000 {
        cpu.state.memory[at] = 0xff;
    }
    let pixels = frame_pixels(&cpu.state);
    assert_eq!(pixels.len(), 224 * 256);
    assert_eq!(pixels[0], Pixel { x: 0, y: 256, color: GREEN });
    assert_eq!(pixels[255], Pixel { x: 0, y: 1, color: WHITE });
    assert_eq!(pixels[256], Pixel { x: 1, y: 256, color: GREEN });
    assert_eq!(pixels[224 * 256 - 1], Pixel { x: 223, y: 1, color: WHITE });
}

fn looping_program() -> Vec<u8> {
    // 0000: LXI SP,2400; 0003: MVI A,01; 0005: STA 2400; 0008: EI;
    // 0009: JMP 0009; 0010: INR B; 0011: RET
    let mut program = vec![
        0x31, 0x00, 0x24, 0x3e, 0x01, 0x32, 0x00, 0x24, 0xfb, 0xc3, 0x09, 0x00,
    ];
    program.resize(0x10, 0x00);
    program.extend_from_slice(&[0x04, 0xc9]);
    program
}

#[test]
fn a_frame_runs_both_halves_and_raises_both_interrupts() {
    let (mut machine, sounds, screen) = cabinet(
        looping_program(),
        vec![vec![(Player::Player1, Button::Coin(ButtonState::Down))]],
    );
    assert_eq!(machine.run_next_frame(), RunEnd::Completed);
    {
        let cpu = machine.cpu();
        // The mid-frame interrupt went to 0008, where EI and the loop follow;
        // the end-of-frame interrupt has just gone to 0010.
        assert_eq!(cpu.state.pc, 0x0010);
        assert_eq!(cpu.state.sp, 0x23fc);
        assert_eq!(&cpu.state.memory[0x23fc..0x2400], &[0x09, 0x00, 0x09, 0x00]);
        assert_eq!(cpu.state.b, 0);
        assert!(cpu.interrupts_enabled);
    }
    assert_eq!(machine.io().input(1), Some(0x09));
    assert_eq!(
        taken(&screen),
        vec!["clear", "draw 0 256 (0, 255, 0)", "present"]
    );
    assert!(taken(&sounds).is_empty());

    assert_eq!(machine.run_next_frame(), RunEnd::Completed);
    assert_eq!(machine.cpu().state.b, 1);
    assert_eq!(machine.io().input(1), Some(0x09));
    assert_eq!(
        taken(&screen),
        vec!["clear", "draw 0 256 (0, 255, 0)", "present"]
    );
}

#[test]
fn a_frame_without_interrupts_enabled_keeps_running_the_program() {
    // 0000: INR A; 0001: JMP 0000
    let (mut machine, _, screen) = cabinet(vec![0x3c, 0xc3, 0x00, 0x00], Vec::new());
    assert_eq!(machine.run_next_frame(), RunEnd::Completed);
    // 16500 cycles are 1100 rounds of 15; 33000 cycles are 2200 more.
    assert_eq!(machine.cpu().state.a, (3300u32 % 256) as u8);
    assert_eq!(machine.cpu().state.pc, 0x0000);
    assert_eq!(machine.cpu().state.sp, 0x0000);
    assert_eq!(taken(&screen), vec!["clear", "present"]);
}

#[test]
fn a_fault_ends_the_frame_before_anything_is_drawn() {
    let (mut machine, _, screen) = cabinet(
        vec![0x00, 0x00, 0xed],
        vec![vec![(Player::Player1, Button::Coin(ButtonState::Down))]],
    );
    assert_eq!(machine.run_next_frame(), RunEnd::Fault(Fault::DecodeFailure(0xed)));
    assert_eq!(machine.cpu().state.pc, 0x0002);
    assert!(taken(&screen).is_empty());
    assert_eq!(machine.io().input(1), Some(0x08));
}

#[test]
fn a_port_that_the_cabinet_lacks_ends_the_frame() {
    // IN 07
    let (mut machine, _, _) = cabinet(vec![0xdb, 0x07], Vec::new());
    assert_eq!(machine.run_next_frame(), RunEnd::Fault(Fault::InputRefused(7)));
    // OUT 01
    let (mut machine, _, _) = cabinet(vec![0xd3, 0x01], Vec::new());
    assert_eq!(machine.run_next_frame(), RunEnd::Fault(Fault::OutputRefused(1)));
}

#[test]
fn a_diagnostic_call_ends_the_frame() {
    // MVI C,09; LXI D,0007; CALL 0005; then the message at 000a
    let mut program = vec![0x0e, 0x09, 0x11, 0x07, 0x00, 0xcd, 0x05, 0x00, 0x00, 0x00];
    program.extend_from_slice(b"done$");
    let (mut machine, _, screen) = cabinet(program, Vec::new());
    assert_eq!(machine.run_next_frame(), RunEnd::Exit(b"done".to_vec()));
    assert!(taken(&screen).is_empty());
}

#[test]
fn the_program_reaches_the_ports_through_the_processor() {
    // MVI A,ab; OUT 04; MVI A,01; OUT 03; IN 03; then an opcode without an
    // instruction
    let (mut machine, sounds, _) = cabinet(
        vec![0x3e, 0xab, 0xd3, 0x04, 0x3e, 0x01, 0xd3, 0x03, 0xdb, 0x03, 0xff],
        Vec::new(),
    );
    assert_eq!(machine.run_next_frame(), RunEnd::Fault(Fault::DecodeFailure(0xff)));
    assert_eq!(machine.cpu().state.a, 0xab);
    assert_eq!(taken(&sounds), vec!["start ufo.wav"]);
}

#[test]
fn run_cycles_stops_once_the_budget_is_spent() {
    // 0000: INR A (5 cycles); 0001: JMP 0000 (10 cycles)
    let (mut machine, _, _) = cabinet(vec![0x3c, 0xc3, 0x00, 0x00], Vec::new());
    assert_eq!(machine.run_cycles(31), RunEnd::Completed);
    // 5, 15, 20, 30, 35: five instructions
    assert_eq!(machine.cpu().state.a, 3);
    assert_eq!(machine.cpu().state.pc, 1);
    assert_eq!(machine.run_cycles(0), RunEnd::Completed);
    assert_eq!(machine.cpu().state.pc, 1);
    assert_eq!(machine.run_cycles(10), RunEnd::Completed);
    assert_eq!(machine.cpu().state.pc, 0);
    assert_eq!(machine.run_cycles(11), RunEnd::Completed);
    assert_eq!(machine.cpu().state.pc, 0);
    assert_eq!(machine.cpu().state.a, 4);
}

#[test]
fn run_cycles_stops_at_a_fault() {
    // NOP; then an opcode without an instruction
    let (mut machine, _, _) = cabinet(vec![0x00, 0xff], Vec::new());
    assert_eq!(machine.run_cycles(1000), RunEnd::Fault(Fault::DecodeFailure(0xff)));
    assert_eq!(machine.cpu().state.pc, 1);
}

#[test]
fn single_steps_of_the_cabinet() {
    // MVI A,05; OUT 02; MVI A,07; OUT 04; IN 03; IN 09
    let (mut machine, _, _) = cabinet(
        vec![0x3e, 0x05, 0xd3, 0x02, 0x3e, 0x07, 0xd3, 0x04, 0xdb, 0x03, 0xdb, 0x09],
        Vec::new(),
    );
    assert_eq!(machine.step(), Ok(Outcome::Cycles(7)));
    assert_eq!(machine.step(), Ok(Outcome::Cycles(10)));
    assert_eq!(machine.step(), Ok(Outcome::Cycles(7)));
    assert_eq!(machine.step(), Ok(Outcome::Cycles(10)));
    assert_eq!(machine.io().input(3), Some(0xe0));
    assert_eq!(machine.step(), Ok(Outcome::Cycles(10)));
    assert_eq!(machine.cpu().state.a, 0xe0);
    assert_eq!(machine.step(), Err(Fault::InputRefused(9)));
    assert_eq!(machine.cpu().state.pc, 10);
    assert_eq!(machine.cpu().state.a, 0xe0);
}

#[test]
fn interrupts_of_the_cabinet() {
    // EI
    let (mut machine, _, _) = cabinet(vec![0xfb], Vec::new());
    assert!(!machine.interrupt(2));
    assert_eq!(machine.cpu().state.pc, 0);
    assert_eq!(machine.step(), Ok(Outcome::Cycles(4)));
    assert!(machine.interrupt(2));
    assert_eq!(machine.cpu().state.pc, 0x0010);
    assert_eq!(machine.cpu().state.sp, 0xfffe);
    assert_eq!(machine.cpu().state.memory[0xfffe], 0x01);
}

#[test]
fn the_processor_part_of_a_frame() {
    let (mut machine, _, screen) = cabinet(
        looping_program(),
        vec![vec![(Player::Player1, Button::Coin(ButtonState::Down))]],
    );
    assert_eq!(machine.run_frame_cycles(), RunEnd::Completed);
    assert_eq!(machine.cpu().state.pc, 0x0010);
    assert_eq!(machine.io().input(1), Some(0x08));
    assert!(taken(&screen).is_empty());
}
