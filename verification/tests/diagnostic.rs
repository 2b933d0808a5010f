use emulator::cpu::{Cpu, Fault, RunEnd};
use emulator::machines::IO;

/// A machine without devices.
struct Unplugged;

impl IO for Unplugged {
    fn input(&self, _port: u8) -> Option<u8> {
        None
    }

    fn output(&mut self, _port: u8, _val: u8) -> bool {
        false
    }
}

const ERROR: u16 = 0x0010;
const START: u16 = 0x0100;
const SCRATCH: u16 = 0x0800;
const STACK: u16 = 0x07f0;
const SUCCESS: &[u8] = b" CPU IS OPERATIONAL";
const FAILURE: &[u8] = b" CPU HAS FAILED!";

/// A program under construction: the bytes so far, placed from address 0.
struct Program {
    bytes: Vec<u8>,
}

impl Program {
    fn here(&self) -> u16 {
        self.bytes.len() as u16
    }

    fn emit(&mut self, bytes: &[u8]) {
        self.bytes.extend_from_slice(bytes);
    }

    fn with_address(&mut self, opcode: u8, addr: u16) {
        self.emit(&[opcode, addr as u8, (addr >> 8) as u8]);
    }

    /// Pads with zeros up to `addr`.
    fn seek(&mut self, addr: u16) {
        assert!(self.here() <= addr);
        self.bytes.resize(addr as usize, 0x00);
    }

    /// Prints `message` through the diagnostic call.
    fn print(&mut self, message: &[u8]) {
        // LXI D,text-3; MVI C,09; CALL 0005; then the text and its sentinel
        let text = self.here() + 8;
        self.with_address(0x11, text - 3);
        self.emit(&[0x0e, 0x09]);
        self.with_address(0xcd, 0x0005);
        self.emit(message);
        self.emit(b"$");
    }

    /// Jumps to the failure message where the conditional jump `opcode` is
    /// taken.
    fn fail_if(&mut self, opcode: u8) {
        self.with_address(opcode, ERROR);
    }

    /// Jumps to the failure message unless the conditional jump `opcode` is
    /// taken.
    fn fail_unless(&mut self, opcode: u8) {
        let next = self.here() + 6;
        self.with_address(opcode, next);
        self.with_address(0xc3, ERROR);
    }

    /// Fails unless the accumulator holds `expected`; changes the flags.
    fn expect_a(&mut self, expected: u8) {
        self.emit(&[0xfe, expected]);
        self.fail_if(JNZ);
    }
}

const JNZ: u8 = 0xc2;
const JZ: u8 = 0xca;
const JNC: u8 = 0xd2;
const JC: u8 = 0xda;
const JPO: u8 = 0xe2;
const JPE: u8 = 0xea;
const JP: u8 = 0xf2;
const JM: u8 = 0xfa;

fn diagnostic() -> Program {
    let mut p = Program { bytes: Vec::new() };
    p.with_address(0xc3, START);
    p.seek(ERROR);
    p.print(FAILURE);
    p.seek(START);
    p.with_address(0x31, STACK); // LXI SP

    // Compares and zero jumps.
    p.emit(&[0x3e, 0x01]); // MVI A,01
    p.emit(&[0xfe, 0x02]); // CPI 02
    p.fail_if(JZ);
    p.fail_unless(JC);
    p.fail_unless(JM);
    p.emit(&[0xfe, 0x01]); // CPI 01
    p.fail_if(JNZ);
    p.fail_if(JC);
    p.fail_unless(JPE);
    p.fail_unless(JP);

    // Every condition after ANI 00.
    p.emit(&[0x3e, 0x17, 0xe6, 0x00]); // MVI A,17; ANI 00
    p.fail_if(JNZ);
    p.fail_if(JC);
    p.fail_if(JPO);
    p.fail_if(JM);
    p.fail_unless(JZ);
    p.fail_unless(JNC);
    p.fail_unless(JPE);
    p.fail_unless(JP);

    // Additions and subtractions.
    p.emit(&[0x3e, 0x06, 0xc6, 0x70]); // MVI A,06; ADI 70
    p.fail_if(JC);
    p.fail_if(JZ);
    p.fail_if(JM);
    p.fail_unless(JPO);
    p.expect_a(0x76);
    p.emit(&[0x3e, 0x76, 0xc6, 0x81]); // MVI A,76; ADI 81
    p.fail_if(JC);
    p.fail_unless(JM);
    p.fail_unless(JPO);
    p.expect_a(0xf7);
    p.emit(&[0x3e, 0xf7, 0xc6, 0x0e]); // MVI A,f7; ADI 0e
    p.fail_unless(JC);
    p.fail_unless(JPE);
    p.fail_unless(JP);
    p.expect_a(0x05);
    p.emit(&[0x3e, 0x05, 0x37, 0xce, 0x0a]); // MVI A,05; STC; ACI 0a
    p.fail_if(JC);
    p.expect_a(0x10);
    p.emit(&[0x3e, 0x10, 0xd6, 0x11]); // MVI A,10; SUI 11
    p.fail_unless(JC);
    p.fail_unless(JM);
    p.expect_a(0xff);
    p.emit(&[0x3e, 0x10, 0x37, 0xde, 0x0f]); // MVI A,10; STC; SBI 0f
    p.fail_if(JC);
    p.fail_unless(JZ);
    p.emit(&[0x06, 0x03, 0x3e, 0x04, 0x80, 0x90, 0x90]); // MVI B,03; MVI A,04; ADD B; SUB B; SUB B
    p.expect_a(0x01);
    p.emit(&[0x3e, 0xff, 0x37, 0x88]); // MVI A,ff; STC; ADC B
    p.fail_unless(JC);
    p.expect_a(0x03);
    p.emit(&[0x3e, 0x03, 0x37, 0x98]); // MVI A,03; STC; SBB B
    p.fail_unless(JC);
    p.expect_a(0xff);

    // Increments and decrements keep carry.
    p.emit(&[0x37, 0x0e, 0xff, 0x0c]); // STC; MVI C,ff; INR C
    p.fail_unless(JC);
    p.fail_unless(JZ);
    p.emit(&[0x0d]); // DCR C
    p.fail_unless(JC);
    p.fail_unless(JM);
    p.emit(&[0x79]); // MOV A,C
    p.expect_a(0xff);
    p.emit(&[0x0e, 0x02]); // MVI C,02 (no diagnostic call by accident later)

    // Logic.
    p.emit(&[0x3e, 0xf0, 0x06, 0x3c, 0xa0]); // MVI A,f0; MVI B,3c; ANA B
    p.fail_if(JC);
    p.expect_a(0x30);
    p.emit(&[0x3e, 0x30, 0xaf]); // MVI A,30; XRA A
    p.fail_unless(JZ);
    p.fail_if(JC);
    p.emit(&[0x2f]); // CMA
    p.expect_a(0xff);

    // Rotates.
    p.emit(&[0x3e, 0x81, 0x07]); // MVI A,81; RLC
    p.fail_unless(JC);
    p.emit(&[0x17]); // RAL
    p.fail_if(JC);
    p.emit(&[0x0f]); // RRC
    p.fail_unless(JC);
    p.emit(&[0x1f]); // RAR
    p.fail_unless(JC);
    p.expect_a(0xc1);

    // Moves through every register and through memory.
    p.emit(&[0x3e, 0x5a, 0x47, 0x48, 0x51, 0x5a, 0x63, 0x6c]); // A>B>C>D>E>H>L
    p.emit(&[0x7d]); // MOV A,L
    p.expect_a(0x5a);
    p.emit(&[0x0e, 0x02]); // MVI C,02
    p.with_address(0x21, SCRATCH); // LXI H
    p.emit(&[0x36, 0xa5, 0x7e]); // MVI M,a5; MOV A,M
    p.expect_a(0xa5);
    p.emit(&[0x34, 0x34, 0x35, 0x46, 0x78]); // INR M; INR M; DCR M; MOV B,M; MOV A,B
    p.expect_a(0xa6);
    p.emit(&[0x3e, 0x11]); // MVI A,11
    p.with_address(0x32, SCRATCH + 1); // STA
    p.emit(&[0x3e, 0x00]); // MVI A,00
    p.with_address(0x3a, SCRATCH + 1); // LDA
    p.expect_a(0x11);
    p.with_address(0x01, SCRATCH + 2); // LXI B
    p.emit(&[0x3e, 0x22, 0x02, 0x3e, 0x00, 0x0a]); // MVI A,22; STAX B; MVI A,00; LDAX B
    p.expect_a(0x22);
    p.emit(&[0x0e, 0x02]); // MVI C,02

    // Pairs: LXI, SHLD, LHLD, INX, DCX, DAD, XCHG.
    p.with_address(0x21, 0x1234); // LXI H,1234
    p.with_address(0x22, SCRATCH + 4); // SHLD
    p.with_address(0x21, 0x0000); // LXI H,0000
    p.with_address(0x2a, SCRATCH + 4); // LHLD
    p.emit(&[0x7c]); // MOV A,H
    p.expect_a(0x12);
    p.emit(&[0x7d]); // MOV A,L
    p.expect_a(0x34);
    p.with_address(0x11, 0xffff); // LXI D,ffff
    p.emit(&[0x13, 0x7a, 0xb3]); // INX D; MOV A,D; ORA E
    p.fail_if(JNZ);
    p.emit(&[0x1b, 0x7a, 0xa3]); // DCX D; MOV A,D; ANA E
    p.expect_a(0xff);
    p.with_address(0x21, 0x8000); // LXI H,8000
    p.emit(&[0x29]); // DAD H
    p.fail_unless(JC);
    p.emit(&[0x7c, 0xb5]); // MOV A,H; ORA L
    p.fail_if(JNZ);
    p.with_address(0x21, 0x0102); // LXI H,0102
    p.with_address(0x11, 0x0304); // LXI D,0304
    p.emit(&[0x19]); // DAD D
    p.fail_if(JC);
    p.emit(&[0xeb, 0x7a]); // XCHG; MOV A,D
    p.expect_a(0x04);
    p.emit(&[0x7b]); // MOV A,E
    p.expect_a(0x06);
    p.emit(&[0x7c]); // MOV A,H
    p.expect_a(0x03);

    // Stack: PUSH, POP, the status word, XTHL, SPHL, DAD SP.
    p.with_address(0x01, 0xbeef); // LXI B,beef
    p.emit(&[0xc5]); // PUSH B
    p.with_address(0x01, 0x0002); // LXI B,0002
    p.emit(&[0xd1, 0x7a]); // POP D; MOV A,D
    p.expect_a(0xbe);
    p.emit(&[0x7b]); // MOV A,E
    p.expect_a(0xef);
    p.emit(&[0x3e, 0x00, 0xd6, 0x01, 0xf5]); // MVI A,00; SUI 01; PUSH PSW
    p.emit(&[0x3e, 0x01, 0xb7, 0xf1]); // MVI A,01; ORA A; POP PSW
    p.fail_unless(JC);
    p.fail_unless(JM);
    p.fail_unless(JPE);
    p.fail_if(JZ);
    p.expect_a(0xff);
    p.with_address(0x21, 0x1122); // LXI H,1122
    p.with_address(0x11, 0x3344); // LXI D,3344
    p.emit(&[0xd5, 0xe3, 0xd1]); // PUSH D; XTHL; POP D
    p.emit(&[0x7c]); // MOV A,H
    p.expect_a(0x33);
    p.emit(&[0x7a]); // MOV A,D
    p.expect_a(0x11);
    p.with_address(0x21, 0x0000); // LXI H,0000
    p.emit(&[0x39, 0x7c]); // DAD SP; MOV A,H
    p.expect_a((STACK >> 8) as u8);
    p.emit(&[0x7d]); // MOV A,L
    p.expect_a(STACK as u8);
    p.emit(&[0x33, 0x3b, 0xf9]); // INX SP; DCX SP; SPHL

    // Calls and returns.
    let subroutine = p.here() + 3;
    let after = subroutine + 8;
    p.with_address(0xc3, after); // JMP over the subroutine
    p.emit(&[0x3c]); // INR A
    p.emit(&[0xc0]); // RNZ
    p.emit(&[0x3e, 0x77]); // MVI A,77
    p.emit(&[0xc8]); // RZ
    p.with_address(0xc3, ERROR);
    assert_eq!(p.here(), after);
    p.emit(&[0x3e, 0x41]); // MVI A,41
    p.with_address(0xcd, subroutine); // CALL
    p.expect_a(0x42);
    p.emit(&[0x3e, 0xff]); // MVI A,ff
    p.with_address(0xcd, subroutine); // CALL, which passes RNZ and returns at RZ
    p.expect_a(0x77);
    p.emit(&[0x3e, 0x00, 0xb7]); // MVI A,00; ORA A
    p.with_address(0xc4, ERROR); // CNZ
    p.with_address(0xdc, ERROR); // CC
    p.with_address(0xe4, ERROR); // CPO
    p.with_address(0xfc, ERROR); // CM
    p.emit(&[0x3e, 0x40]); // MVI A,40
    p.with_address(0xcc, subroutine); // CZ
    p.expect_a(0x41);

    // PCHL.
    let landing = p.here() + 7;
    p.with_address(0x21, landing); // LXI H
    p.emit(&[0xe9]); // PCHL
    p.with_address(0xc3, ERROR);
    assert_eq!(p.here(), landing);

    p.print(SUCCESS);
    p
}

#[test]
fn the_diagnostic_program_reports_success() {
    let mut cpu = Cpu::new(diagnostic().bytes);
    let end = cpu.run(&mut Unplugged, 100_000);
    assert_eq!(end, RunEnd::Exit(SUCCESS.to_vec()));
}

#[test]
fn the_diagnostic_program_reports_a_broken_instruction() {
    // The same program with its first comparison turned around.
    let mut program = diagnostic().bytes;
    let at = (START + 3 + 2) as usize;
    assert_eq!(&program[at..at + 2], &[0xfe, 0x02]);
    program[at + 1] = 0x01;
    let mut cpu = Cpu::new(program);
    let end = cpu.run(&mut Unplugged, 100_000);
    assert_eq!(end, RunEnd::Exit(FAILURE.to_vec()));
}

#[test]
fn the_diagnostic_program_stops_at_an_opcode_without_an_instruction() {
    let mut program = diagnostic().bytes;
    program[START as usize + 3] = 0xdd;
    let mut cpu = Cpu::new(program);
    let end = cpu.run(&mut Unplugged, 100_000);
    assert_eq!(end, RunEnd::Fault(Fault::DecodeFailure(0xdd)));
    assert_eq!(cpu.state.pc, START + 3);
}
