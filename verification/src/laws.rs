use vstd::prelude::*;
use crate::fault::{Fault, FaultKind};
use crate::instruction::{decode_spec, Instruction};
use crate::model::{
    blit, collides, screen_sized, sprite_bit, sprite_covers, MEMORY_SIZE, SCREEN_HEIGHT,
    SCREEN_WIDTH,
};
use crate::state::{flag, State};

verus! {

/// Drawing is its own inverse: a sprite drawn twice at one place leaves the
/// screen as it was before the first draw. Each draw judges collisions by the
/// screen that it finds: the second draw collides exactly where the sprite
/// covers a pixel that was off before the first.
pub proof fn lemma_blit_twice(screen: Seq<Seq<bool>>, sprite: Seq<u8>, x0: int, y0: int)
    requires
        screen_sized(screen),
    ensures
        blit(blit(screen, sprite, x0, y0), sprite, x0, y0) == screen,
        collides(blit(screen, sprite, x0, y0), sprite, x0, y0) <==> exists|px: int, py: int|
            0 <= px < SCREEN_WIDTH && 0 <= py < SCREEN_HEIGHT && !#[trigger] screen[py][px]
                && sprite_covers(sprite, x0, y0, px, py),
{
    let once = blit(screen, sprite, x0, y0);
    let twice = blit(once, sprite, x0, y0);
    assert(twice =~~= screen);
    if collides(once, sprite, x0, y0) {
        let (px, py) = choose|px: int, py: int|
            0 <= px < SCREEN_WIDTH && 0 <= py < SCREEN_HEIGHT && #[trigger] once[py][px]
                && sprite_covers(sprite, x0, y0, px, py);
        assert(!screen[py][px]);
    }
    if exists|px: int, py: int|
        0 <= px < SCREEN_WIDTH && 0 <= py < SCREEN_HEIGHT && !#[trigger] screen[py][px]
            && sprite_covers(sprite, x0, y0, px, py) {
        let (px, py) = choose|px: int, py: int|
            0 <= px < SCREEN_WIDTH && 0 <= py < SCREEN_HEIGHT && !#[trigger] screen[py][px]
                && sprite_covers(sprite, x0, y0, px, py);
        assert(once[py][px]);
    }
}

/// The draw instruction run twice, with `Vx` and `Vy` giving the same place
/// both times, leaves everything but `VF` as it was: the second draw ends
/// well where the first did and gives the screen back. `VF` then tells
/// whether the second draw, judged by the screen that it found, turned a
/// pixel off.
pub proof fn lemma_draw_twice(s: State, x: u8, y: u8, n: u8)
    requires
        s.wf(),
        x < 16,
        y < 16,
        s.apply(Instruction::Draw { x, y, n }) is Ok,
        s.drawn(x, y, n).draw_column(x) == s.draw_column(x),
        s.drawn(x, y, n).draw_row(y) == s.draw_row(y),
    ensures
        ({
            let draw = Instruction::Draw { x, y, n };
            let once = s.apply(draw)->Ok_0;
            &&& once.apply(draw) matches Ok(twice) && twice.screen == s.screen && twice
                == s.with_flag(
                collides(once.screen, s.sprite_at_index(n), s.draw_column(x), s.draw_row(y)),
            )
        }),
{
    let sprite = s.sprite_at_index(n);
    let x0 = s.draw_column(x);
    let y0 = s.draw_row(y);
    lemma_blit_twice(s.screen, sprite, x0, y0);
    let once = s.drawn(x, y, n);
    let twice = once.drawn(x, y, n);
    assert(once.sprite_at_index(n) == sprite);
    assert(twice.v =~= s.with_flag(collides(once.screen, sprite, x0, y0)).v);
}

/// Every instruction, and so every instruction word, keeps a well-formed
/// state well formed.
pub proof fn lemma_apply_keeps_wf(s: State, ins: Instruction)
    requires
        s.wf(),
        ins.wf(),
    ensures
        s.apply(ins) matches Ok(next) ==> next.wf(),
{
}

/// Bit `j` of row `i` of a sprite lands at column `x0 + j` and row `y0 + i`,
/// each wrapped round the screen: the sprite covers that pixel if and only
/// if the bit is set.
pub proof fn lemma_sprite_bit_lands(sprite: Seq<u8>, x0: int, y0: int, i: int, j: int)
    requires
        0 <= x0 < SCREEN_WIDTH,
        0 <= y0 < SCREEN_HEIGHT,
        0 <= i < sprite.len() <= SCREEN_HEIGHT,
        0 <= j < 8,
    ensures
        sprite_covers(
            sprite,
            x0,
            y0,
            (x0 + j) % (SCREEN_WIDTH as int),
            (y0 + i) % (SCREEN_HEIGHT as int),
        ) == sprite_bit(sprite[i], j),
{
    let px = (x0 + j) % (SCREEN_WIDTH as int);
    let py = (y0 + i) % (SCREEN_HEIGHT as int);
    assert((px - x0) % (SCREEN_WIDTH as int) == j);
    assert((py - y0) % (SCREEN_HEIGHT as int) == i);
}

/// A pixel that a sprite covers is the landing place of one of its set bits:
/// of bit `(px - x0) mod 64` of row `(py - y0) mod 32`.
pub proof fn lemma_sprite_covers_a_bit(sprite: Seq<u8>, x0: int, y0: int, px: int, py: int)
    requires
        0 <= x0 < SCREEN_WIDTH,
        0 <= y0 < SCREEN_HEIGHT,
        0 <= px < SCREEN_WIDTH,
        0 <= py < SCREEN_HEIGHT,
        sprite_covers(sprite, x0, y0, px, py),
    ensures
        ({
            let j = (px - x0) % (SCREEN_WIDTH as int);
            let i = (py - y0) % (SCREEN_HEIGHT as int);
            &&& 0 <= i < sprite.len()
            &&& 0 <= j < 8
            &&& px == (x0 + j) % (SCREEN_WIDTH as int)
            &&& py == (y0 + i) % (SCREEN_HEIGHT as int)
            &&& sprite_bit(sprite[i], j)
        }),
{
}

/// The fields of an instruction word that is put together from four nibbles.
pub proof fn lemma_word_fields(family: u8, x: u8, y: u8, n: u8)
    requires
        family < 16,
        x < 16,
        y < 16,
        n < 16,
    ensures
        ({
            let word = (family * 4096 + x * 256 + y * 16 + n) as u16;
            &&& word == family * 4096 + x * 256 + y * 16 + n
            &&& word / 4096 == family
            &&& (word / 256) % 16 == x
            &&& (word / 16) % 16 == y
            &&& word % 16 == n
            &&& word % 256 == y * 16 + n
            &&& word % 4096 == x * 256 + y * 16 + n
        }),
{
    let word = (family * 4096 + x * 256 + y * 16 + n) as u16;
    let high = family * 16 + x;
    let low = y * 16 + n;
    assert(word == high * 256 + low);
    assert(word / 256 == high && word % 256 == low);
    assert(high / 16 == family && high % 16 == x);
    assert(word / 4096 == (word / 256) / 16);
    assert(word / 16 == high * 16 + y && word % 16 == n);
    assert((high * 16 + y) % 16 == y);
    assert(word == family * 4096 + (x * 256 + low));
}

/// `7xkk` adds modulo 256, never faults, and changes no other register: it
/// sets no flag.
pub proof fn lemma_add_immediate_wraps(s: State, x: u8, kk: u8)
    requires
        s.wf(),
        x < 16,
    ensures
        s.execute((0x7000 + x * 256 + kk) as u16) matches Ok(next) && {
            &&& next.wf()
            &&& next.v[x as int] == (s.v[x as int] + kk) % 256
            &&& forall|r: int| 0 <= r < 16 && r != x ==> next.v[r] == s.v[r]
        },
{
    lemma_word_fields(7, x, kk / 16, kk % 16);
    let word = (0x7000 + x * 256 + kk) as u16;
    assert(decode_spec(word) == Some(Instruction::AddImm { x, kk }));
}

/// `8xy4` adds modulo 256 and never faults; `VF` becomes 1 if and only if
/// the true sum exceeds 255, and 0 otherwise.
pub proof fn lemma_add_carries(s: State, x: u8, y: u8)
    requires
        s.wf(),
        x < 16,
        y < 16,
    ensures
        s.execute((0x8004 + x * 256 + y * 16) as u16) matches Ok(next) && {
            &&& next.wf()
            &&& next.v[0xF] == flag(s.v[x as int] + s.v[y as int] > 255)
            &&& x != 0xF ==> next.v[x as int] == (s.v[x as int] + s.v[y as int]) % 256
            &&& forall|r: int| 0 <= r < 0xF && r != x ==> next.v[r] == s.v[r]
        },
{
    lemma_word_fields(8, x, y, 4);
    let word = (0x8004 + x * 256 + y * 16) as u16;
    assert(decode_spec(word) == Some(Instruction::Add { x, y }));
}

/// `8xy5` and `8xy7` subtract modulo 256 and never fault; `VF` becomes 1 if
/// and only if the subtraction needs no borrow, and 0 otherwise, or the
/// other way round where the configuration turns the flag over.
pub proof fn lemma_subtract_borrows(s: State, x: u8, y: u8)
    requires
        s.wf(),
        x < 16,
        y < 16,
    ensures
        s.execute((0x8005 + x * 256 + y * 16) as u16) matches Ok(next) && {
            &&& next.wf()
            &&& next.v[0xF] == flag((s.v[x as int] >= s.v[y as int]) != s.config.borrow_sets_flag)
            &&& x != 0xF ==> next.v[x as int] == (s.v[x as int] - s.v[y as int]) % 256
        },
        s.execute((0x8007 + x * 256 + y * 16) as u16) matches Ok(next) && {
            &&& next.wf()
            &&& next.v[0xF] == flag((s.v[y as int] >= s.v[x as int]) != s.config.borrow_sets_flag)
            &&& x != 0xF ==> next.v[x as int] == (s.v[y as int] - s.v[x as int]) % 256
        },
{
    lemma_word_fields(8, x, y, 5);
    lemma_word_fields(8, x, y, 7);
    let sub = (0x8005 + x * 256 + y * 16) as u16;
    let sub_from = (0x8007 + x * 256 + y * 16) as u16;
    assert(decode_spec(sub) == Some(Instruction::Sub { x, y }));
    assert(decode_spec(sub_from) == Some(Instruction::SubFrom { x, y }));
}

/// `8xy6` and `8xyE` shift by one place and never fault; `VF` becomes the bit
/// that fell off. They shift `Vx`, or `Vy` where the configuration says so.
pub proof fn lemma_shifts(s: State, x: u8, y: u8)
    requires
        s.wf(),
        x < 16,
        y < 16,
    ensures
        s.execute((0x8006 + x * 256 + y * 16) as u16) matches Ok(next) && {
            &&& next.wf()
            &&& next.v[0xF] == s.shift_source(x, y) % 2
            &&& x != 0xF ==> next.v[x as int] == s.shift_source(x, y) / 2
        },
        s.execute((0x800E + x * 256 + y * 16) as u16) matches Ok(next) && {
            &&& next.wf()
            &&& next.v[0xF] == s.shift_source(x, y) / 128
            &&& x != 0xF ==> next.v[x as int] == (s.shift_source(x, y) * 2) % 256
        },
{
    lemma_word_fields(8, x, y, 6);
    lemma_word_fields(8, x, y, 0xE);
    let right = (0x8006 + x * 256 + y * 16) as u16;
    let left = (0x800E + x * 256 + y * 16) as u16;
    assert(decode_spec(right) == Some(Instruction::ShiftRight { x, y }));
    assert(decode_spec(left) == Some(Instruction::ShiftLeft { x, y }));
}

/// A tick never takes a timer below zero: a timer at zero stays there, and
/// any other goes down by exactly one.
pub proof fn lemma_tick_floors(s: State)
    ensures
        s.ticked().delay == if s.delay == 0 {
            0
        } else {
            s.delay - 1
        },
        s.ticked().sound == if s.sound == 0 {
            0
        } else {
            s.sound - 1
        },
        s.wf() ==> s.ticked().wf(),
{
}

/// A fetch moves the program counter on by exactly two, whatever word it
/// finds, and changes nothing else.
pub proof fn lemma_fetch_advances(s: State)
    requires
        s.can_fetch(),
    ensures
        s.fetched().pc == s.pc + 2,
        s.fetched() == s.with_pc((s.pc + 2) as u16),
{
}

/// A step of a machine that waits for a key changes nothing; a step of any
/// other machine that ends well is a fetch and the execution of the word
/// fetched.
pub proof fn lemma_step(s: State)
    requires
        s.wf(),
    ensures
        s.waiting is Some ==> s.step() == Ok::<State, Fault>(s),
        s.waiting is None && s.step() is Ok ==> s.can_fetch() && s.fetched().execute(
            s.word_at_pc(),
        ) == Ok::<State, FaultKind>(s.step()->Ok_0),
        s.step() matches Ok(next) ==> next.wf(),
        s.step() matches Err(fault) ==> fault.pc == s.pc,
{
    if s.waiting is None && s.can_fetch() {
        let word = s.word_at_pc();
        match decode_spec(word) {
            Some(ins) => {
                lemma_decode_wf(word);
                lemma_apply_keeps_wf(s.fetched(), ins);
            },
            None => {},
        }
    }
}

/// The operands of a decoded instruction fit their fields.
pub proof fn lemma_decode_wf(word: u16)
    ensures
        decode_spec(word) matches Some(ins) ==> ins.wf(),
{
}

/// What an instruction leaves alone. The screen changes only by a clear and
/// by a draw, memory only by the two stores, the call stack only by call and
/// return, a timer only where it is set, the generator only where a random
/// number is drawn, and the machine is suspended only by the wait for a key.
/// No instruction touches the keys or the configuration.
pub proof fn lemma_apply_frames(s: State, ins: Instruction)
    requires
        s.wf(),
        ins.wf(),
        s.apply(ins) is Ok,
    ensures
        ({
            let next = s.apply(ins)->Ok_0;
            &&& !(ins is ClearScreen || ins is Draw) ==> next.screen == s.screen
            &&& !(ins is StoreBcd || ins is StoreRegisters) ==> next.memory == s.memory
            &&& !(ins is Call || ins is Return) ==> next.stack == s.stack
            &&& !(ins is SetDelay) ==> next.delay == s.delay
            &&& !(ins is SetSound) ==> next.sound == s.sound
            &&& !(ins is Random) ==> next.rng == s.rng
            &&& !(ins is WaitKey) ==> next.waiting == s.waiting
            &&& !(ins is LoadIndex || ins is AddIndex || ins is FontGlyph) ==> next.i == s.i
            &&& next.keys == s.keys
            &&& next.config == s.config
        }),
{
}

/// A fault is owed exactly here: an unknown word; a return from no call; a
/// call with the stack at its limit; a draw, a store or a load that leaves
/// memory. Every other instruction ends well.
pub proof fn lemma_execute_faults(s: State, word: u16)
    ensures
        s.execute(word) == Err::<State, FaultKind>(FaultKind::UnknownInstruction)
            <==> decode_spec(word) is None,
        s.execute(word) == Err::<State, FaultKind>(FaultKind::StackUnderflow) <==> decode_spec(
            word,
        ) == Some(Instruction::Return) && s.stack.len() == 0,
        s.execute(word) == Err::<State, FaultKind>(FaultKind::StackOverflow) <==> decode_spec(
            word,
        ) is Some && decode_spec(word)->Some_0 is Call && !s.stack_has_room(),
        s.execute(word) == Err::<State, FaultKind>(FaultKind::OutOfBounds) <==> (match decode_spec(
            word,
        ) {
            Some(Instruction::Draw { n, .. }) => n > 0 && s.i + n > MEMORY_SIZE,
            Some(Instruction::StoreBcd { .. }) => s.i + 2 >= MEMORY_SIZE,
            Some(Instruction::StoreRegisters { x }) => s.i + x >= MEMORY_SIZE,
            Some(Instruction::LoadRegisters { x }) => s.i + x >= MEMORY_SIZE,
            _ => false,
        }),
        s.execute(word) != Err::<State, FaultKind>(FaultKind::RomTooLarge),
{
}

} // verus!
