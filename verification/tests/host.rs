use fake6502::backplane::Backplane;
use fake6502::cpu::CPU;

/// A host whose upper half is read-only and that counts what it sees.
struct Cartridge {
    cells: Vec<u8>,
    writes: u32,
    instructions: u32,
    limit: u32,
}

impl Backplane for Cartridge {
    type Model = ();

    fn read(&self, address: u16) -> u8 {
        self.cells[address as usize]
    }

    fn write(&mut self, address: u16, value: u8) {
        self.writes += 1;
        if address < 0x8000 {
            self.cells[address as usize] = value;
        }
    }

    fn each_instr(&mut self, _cpu: &CPU) -> bool {
        self.instructions += 1;
        self.instructions < self.limit
    }
}

fn cartridge(limit: u32) -> Cartridge {
    let mut cells = vec![0xEAu8; 0x10000];
    cells[0xFFFC] = 0x00;
    cells[0xFFFD] = 0x80;
    // $8000: INC $9000; INC $10; JMP $8000
    let code = [0xEE, 0x00, 0x90, 0xE6, 0x10, 0x4C, 0x00, 0x80];
    cells[0x8000..0x8008].copy_from_slice(&code);
    cells[0x0010] = 0x00;
    Cartridge { cells, writes: 0, instructions: 0, limit }
}

#[test]
fn writes_go_to_the_host_even_where_it_ignores_them() {
    let mut host = cartridge(u32::MAX);
    let mut cpu = CPU::new();
    cpu.reset(&host);
    assert_eq!(cpu.pc, 0x8000);
    cpu.step(&mut host);
    assert_eq!(host.writes, 1);
    assert_eq!(host.read(0x9000), 0xEA);
    cpu.step(&mut host);
    assert_eq!(host.writes, 2);
    assert_eq!(host.read(0x0010), 0x01);
}

#[test]
fn host_ends_a_run_after_its_limit() {
    let mut host = cartridge(4);
    let mut cpu = CPU::new();
    cpu.reset(&host);
    cpu.exec(&mut host, 1_000_000);
    assert_eq!(host.instructions, 4);
    assert_eq!(cpu.instructions_ran, 4);
    assert_eq!(cpu.clockticks, 6 + 5 + 3 + 6);
}

/// A host that drops every write.
struct Deaf {
    cells: Vec<u8>,
}

impl Backplane for Deaf {
    type Model = ();

    fn read(&self, address: u16) -> u8 {
        self.cells[address as usize]
    }

    fn write(&mut self, _address: u16, _value: u8) {}

    fn each_instr(&mut self, _cpu: &CPU) -> bool {
        true
    }
}

#[test]
fn stack_round_trip_needs_memory_under_the_stack() {
    let mut host = cartridge(u32::MAX);
    let mut cpu = CPU::new();
    cpu.push16(&mut host, 0x1234);
    assert_eq!(cpu.pull16(&host), 0x1234);
    assert_eq!(cpu.sp, 0xFD);

    let mut deaf = Deaf { cells: vec![0x55u8; 0x10000] };
    let mut cpu = CPU::new();
    cpu.push16(&mut deaf, 0x1234);
    assert_eq!(cpu.pull16(&deaf), 0x5555);
    assert_eq!(cpu.sp, 0xFD);
}
