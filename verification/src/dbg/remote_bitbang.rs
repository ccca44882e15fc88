//! The remote-bitbang protocol (as spoken by OpenOCD): one byte per command,
//! driving the JTAG pins of the transport module.
use vstd::prelude::*;
use super::dm_interface::DebugModuleSlave;
use super::jtag_driver::JtagDriver;

verus! {

/// One remote-bitbang command.
#[derive(Clone, Copy, PartialEq, Eq, Debug, Structural)]
pub enum BitBangCommand {
    /// Set (tck, tms, tdi).
    SetPins(bool, bool, bool),
    /// Answer with the TDO level.
    ReadTdo,
    Quit,
    /// Blink an LED: no effect here.
    Blink,
    /// Reset the transport module.
    Reset,
    Unknown,
}

/// The command a byte encodes: ASCII `'0'`..`'7'` set the pins (tck, tms, tdi as
/// bits 2, 1, 0), `'R'` reads TDO, `'Q'` quits, `'B'`/`'b'` blink, `'r'` resets.
pub open spec fn bitbang_command(b: u8) -> BitBangCommand {
    if 0x30u8 <= b <= 0x37u8 {
        let v = b - 0x30u8;
        BitBangCommand::SetPins(v >= 4, v % 4 >= 2, v % 2 == 1)
    } else if b == 0x52u8 {
        BitBangCommand::ReadTdo
    } else if b == 0x51u8 {
        BitBangCommand::Quit
    } else if b == 0x42u8 || b == 0x62u8 {
        BitBangCommand::Blink
    } else if b == 0x72u8 {
        BitBangCommand::Reset
    } else {
        BitBangCommand::Unknown
    }
}

pub fn decode_command(b: u8) -> (r: BitBangCommand)
    ensures
        r == bitbang_command(b),
{
    match b {
        0x30u8 => BitBangCommand::SetPins(false, false, false),
        0x31u8 => BitBangCommand::SetPins(false, false, true),
        0x32u8 => BitBangCommand::SetPins(false, true, false),
        0x33u8 => BitBangCommand::SetPins(false, true, true),
        0x34u8 => BitBangCommand::SetPins(true, false, false),
        0x35u8 => BitBangCommand::SetPins(true, false, true),
        0x36u8 => BitBangCommand::SetPins(true, true, false),
        0x37u8 => BitBangCommand::SetPins(true, true, true),
        0x52u8 => BitBangCommand::ReadTdo,
        0x51u8 => BitBangCommand::Quit,
        0x42u8 | 0x62u8 => BitBangCommand::Blink,
        0x72u8 => BitBangCommand::Reset,
        _ => BitBangCommand::Unknown,
    }
}

/// What the command byte `b` does to the transport module `o`: `n` is the
/// module after it and `answer` what it sends back ('0' or '1' for a TDO
/// read, nothing for the others).
pub open spec fn command_effect<H: DebugModuleSlave>(o: JtagDriver<H>, n: JtagDriver<H>, b: u8, answer: Seq<u8>) -> bool {
    match bitbang_command(b) {
        BitBangCommand::SetPins(tck, tms, tdi) => JtagDriver::pins_set(o, n, tck, tms, tdi) && answer.len() == 0,
        BitBangCommand::ReadTdo => n == o && answer == seq![if o.tdo { 0x31u8 } else { 0x30u8 }],
        BitBangCommand::Reset => JtagDriver::reset_done(o, n) && answer.len() == 0,
        _ => n == o && answer.len() == 0,
    }
}

/// The number of TDO reads among the first `n` commands.
pub open spec fn tdo_reads(commands: Seq<u8>, n: int) -> nat
    decreases n,
{
    if n <= 0 {
        0
    } else {
        tdo_reads(commands, n - 1) + if commands[n - 1] == 0x52u8 { 1nat } else { 0nat }
    }
}

/// What command `j` of `commands` sent back, within all the `answers`.
pub open spec fn answer_of_command(commands: Seq<u8>, answers: Seq<u8>, j: int) -> Seq<u8> {
    answers.subrange(tdo_reads(commands, j) as int, tdo_reads(commands, j + 1) as int)
}

/// Command `j` of `commands` took the transport module from `ms[j]` to
/// `ms[j + 1]` and sent back its part of `answers`.
pub open spec fn step_at<H: DebugModuleSlave>(ms: Seq<JtagDriver<H>>, commands: Seq<u8>, answers: Seq<u8>, j: int) -> bool {
    command_effect(ms[j], ms[j + 1], commands[j], answer_of_command(commands, answers, j))
}

/// `ms` are the states of the transport module through the first `count`
/// commands, which sent back `answers`.
pub open spec fn states_run<H: DebugModuleSlave>(ms: Seq<JtagDriver<H>>, commands: Seq<u8>, count: int, answers: Seq<u8>) -> bool {
    &&& 0 <= count <= commands.len()
    &&& ms.len() == count + 1
    &&& answers.len() == tdo_reads(commands, count)
    &&& forall|j: int| 0 <= j < count ==> #[trigger] step_at(ms, commands, answers, j)
}

/// Running the first `count` of `commands` one after the other takes the
/// transport module from `o` to `n` and sends back `answers`.
pub open spec fn commands_run<H: DebugModuleSlave>(o: JtagDriver<H>, n: JtagDriver<H>, commands: Seq<u8>, count: int, answers: Seq<u8>) -> bool {
    exists|ms: Seq<JtagDriver<H>>| #[trigger] states_run(ms, commands, count, answers) && ms[0] == o && ms[count] == n
}

proof fn lemma_tdo_reads_grow(commands: Seq<u8>, a: int, b: int)
    requires
        0 <= a <= b,
    ensures
        tdo_reads(commands, a) <= tdo_reads(commands, b),
    decreases b - a,
{
    if a < b {
        lemma_tdo_reads_grow(commands, a, b - 1);
    }
}

/// Runs the received `commands` on the transport module one after the
/// other, appending the TDO answers to `send_buffer`. Stops with `Err(i)`
/// at the first command `i` that sets a clock level the transport module
/// cannot take in the state the commands before it left.
pub fn process_commands<H: DebugModuleSlave>(
    jtag_driver: &mut JtagDriver<H>,
    commands: &[u8],
    send_buffer: &mut Vec<u8>,
) -> (r: Result<(), usize>)
    requires
        old(jtag_driver).wf(),
    ensures
        final(jtag_driver).wf(),
        final(send_buffer)@.len() >= old(send_buffer)@.len(),
        final(send_buffer)@.take(old(send_buffer)@.len() as int) == old(send_buffer)@,
        ({
            let answers = final(send_buffer)@.skip(old(send_buffer)@.len() as int);
            match r {
                Ok(()) => commands_run(*old(jtag_driver), *final(jtag_driver), commands@, commands@.len() as int, answers),
                Err(i) => {
                    &&& i < commands@.len()
                    &&& commands_run(*old(jtag_driver), *final(jtag_driver), commands@, i as int, answers)
                    &&& bitbang_command(commands@[i as int]) matches BitBangCommand::SetPins(tck, _, _)
                        && !final(jtag_driver).set_pins_ok(tck)
                },
            }
        }),
{
    let ghost start = send_buffer@.len();
    let ghost mut ms: Seq<JtagDriver<H>> = seq![*jtag_driver];
    let mut i: usize = 0;
    assert(send_buffer@.skip(start as int) =~= Seq::<u8>::empty());
    while i < commands.len()
        invariant
            jtag_driver.wf(),
            0 <= i <= commands@.len(),
            start == old(send_buffer)@.len(),
            send_buffer@.len() >= start,
            send_buffer@.take(start as int) == old(send_buffer)@,
            states_run(ms, commands@, i as int, send_buffer@.skip(start as int)),
            ms[0] == *old(jtag_driver),
            ms[i as int] == *jtag_driver,
        decreases commands@.len() - i,
    {
        let ghost m = *jtag_driver;
        let ghost before = send_buffer@;
        let b = commands[i];
        match decode_command(b) {
            BitBangCommand::SetPins(tck, tms, tdi) => {
                if !jtag_driver.can_set_pins(tck) {
                    assert(commands_run(*old(jtag_driver), *jtag_driver, commands@, i as int, send_buffer@.skip(start as int)));
                    return Err(i);
                }
                jtag_driver.set_pins(tck, tms, tdi);
            },
            BitBangCommand::ReadTdo => {
                send_buffer.push(if jtag_driver.get_tdo() { 0x31u8 } else { 0x30u8 });
            },
            BitBangCommand::Reset => {
                jtag_driver.reset();
            },
            BitBangCommand::Quit | BitBangCommand::Blink | BitBangCommand::Unknown => {},
        }
        proof {
            let c = commands@;
            let old_ans = before.skip(start as int);
            let ans = send_buffer@.skip(start as int);
            let ms0 = ms;
            ms = ms.push(*jtag_driver);
            assert(ans.take(old_ans.len() as int) =~= old_ans);
            assert forall|j: int| 0 <= j < i implies #[trigger] step_at(ms, c, ans, j) by {
                assert(step_at(ms0, c, old_ans, j));
                lemma_tdo_reads_grow(c, j + 1, i as int);
                lemma_tdo_reads_grow(c, j, j + 1);
                assert(answer_of_command(c, ans, j) =~= answer_of_command(c, old_ans, j));
            }
            assert(step_at(ms, c, ans, i as int)) by {
                let added = answer_of_command(c, ans, i as int);
                if bitbang_command(b) is ReadTdo {
                    assert(added =~= seq![if m.tdo { 0x31u8 } else { 0x30u8 }]);
                } else {
                    assert(added =~= Seq::<u8>::empty());
                }
            }
            assert(send_buffer@.take(start as int) =~= before.take(start as int));
        }
        i = i + 1;
    }
    assert(commands_run(*old(jtag_driver), *jtag_driver, commands@, commands@.len() as int, send_buffer@.skip(start as int)));
    Ok(())
}

} // verus!
