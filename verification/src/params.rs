//! The frame parameter block and its memory image.

use crate::scalar::Scalar;
use vstd::prelude::*;

verus! {

/// Number of 32-bit words in the block.
pub const BLOCK_WORDS: usize = 11;

/// Size of the block in bytes.
pub const PUSH_CONSTANT_SIZE: u32 = 44;

/// The per-frame record handed to the shader as push data.
///
/// The order of the fields is the order of the words in memory; the shader
/// is compiled against it.
#[derive(Clone, Copy, Debug, PartialEq, Eq, Structural)]
pub struct ShaderConstants {
    pub surface_width: u32,
    pub surface_height: u32,
    pub elapsed_time: Scalar,
    pub cursor_x: Scalar,
    pub cursor_y: Scalar,
    pub drag_start_x: Scalar,
    pub drag_start_y: Scalar,
    pub drag_end_x: Scalar,
    pub drag_end_y: Scalar,
    pub mouse_left_pressed: u32,
    pub mouse_left_clicked: u32,
}

/// Order of the bytes of a word in memory.
#[derive(Clone, Copy, Debug, PartialEq, Eq, Structural)]
pub enum ByteOrder {
    LittleEndian,
    BigEndian,
}

/// Byte `k` of `w`, counted from the least significant one.
pub open spec fn word_byte(w: u32, k: int) -> u8 {
    if k == 0 {
        (w % 256) as u8
    } else if k == 1 {
        (w / 0x100 % 256) as u8
    } else if k == 2 {
        (w / 0x1_0000 % 256) as u8
    } else {
        (w / 0x100_0000 % 256) as u8
    }
}

/// The bytes that `words` occupy in memory, each word in the given order.
pub open spec fn memory_image(words: Seq<u32>, order: ByteOrder) -> Seq<u8> {
    Seq::new(
        4 * words.len(),
        |i: int|
            word_byte(
                words[i / 4],
                match order {
                    ByteOrder::LittleEndian => i % 4,
                    ByteOrder::BigEndian => 3 - i % 4,
                },
            ),
    )
}

/// The bytes of `words` as the running machine stores them.
///
/// Calls `bytemuck::bytes_of` on the array. That function reinterprets the
/// array's memory as a byte slice: four bytes for each word, the words in
/// array order, each word in the byte order of the machine. Which of the two
/// orders that is the contract leaves open.
#[verifier::external_body]
fn native_bytes(words: &[u32; BLOCK_WORDS]) -> (bytes: Vec<u8>)
    ensures
        bytes@ == memory_image(words@, ByteOrder::LittleEndian) || bytes@ == memory_image(
            words@,
            ByteOrder::BigEndian,
        ),
{
    bytemuck::bytes_of(words).to_vec()
}

impl ShaderConstants {
    /// The words of the block in memory order.
    pub open spec fn words(self) -> Seq<u32> {
        seq![
            self.surface_width,
            self.surface_height,
            self.elapsed_time.bits,
            self.cursor_x.bits,
            self.cursor_y.bits,
            self.drag_start_x.bits,
            self.drag_start_y.bits,
            self.drag_end_x.bits,
            self.drag_end_y.bits,
            self.mouse_left_pressed,
            self.mouse_left_clicked,
        ]
    }

    /// The words of the block in memory order.
    pub fn to_words(&self) -> (words: [u32; BLOCK_WORDS])
        ensures
            words@ == self.words(),
    {
        let words: [u32; BLOCK_WORDS] = [
            self.surface_width,
            self.surface_height,
            self.elapsed_time.bits,
            self.cursor_x.bits,
            self.cursor_y.bits,
            self.drag_start_x.bits,
            self.drag_start_y.bits,
            self.drag_end_x.bits,
            self.drag_end_y.bits,
            self.mouse_left_pressed,
            self.mouse_left_clicked,
        ];
        assert(words@ =~= self.words());
        words
    }

    /// The block as the bytes that are pushed to the device: the memory
    /// image of its words on the running machine.
    pub fn to_bytes(&self) -> (bytes: Vec<u8>)
        ensures
            bytes@.len() == PUSH_CONSTANT_SIZE,
            bytes@ == memory_image(self.words(), ByteOrder::LittleEndian) || bytes@
                == memory_image(self.words(), ByteOrder::BigEndian),
    {
        let words = self.to_words();
        native_bytes(&words)
    }
}

/// The word that stands at position `j` of a memory image.
pub open spec fn word_at(image: Seq<u8>, order: ByteOrder, j: int) -> int {
    match order {
        ByteOrder::LittleEndian => image[4 * j] + 0x100 * image[4 * j + 1] + 0x1_0000 * image[4
            * j + 2] + 0x100_0000 * image[4 * j + 3],
        ByteOrder::BigEndian => image[4 * j + 3] + 0x100 * image[4 * j + 2] + 0x1_0000 * image[4
            * j + 1] + 0x100_0000 * image[4 * j],
    }
}

/// Every word can be read back from the image.
proof fn lemma_image_holds_word(words: Seq<u32>, order: ByteOrder, j: int)
    requires
        0 <= j < words.len(),
    ensures
        word_at(memory_image(words, order), order, j) == words[j],
{
    let image = memory_image(words, order);
    let w = words[j];
    assert((4 * j) / 4 == j && (4 * j) % 4 == 0);
    assert((4 * j + 1) / 4 == j && (4 * j + 1) % 4 == 1);
    assert((4 * j + 2) / 4 == j && (4 * j + 2) % 4 == 2);
    assert((4 * j + 3) / 4 == j && (4 * j + 3) % 4 == 3);
    assert(w == word_byte(w, 0) + 0x100 * word_byte(w, 1) + 0x1_0000 * word_byte(w, 2)
        + 0x100_0000 * word_byte(w, 3));
}

/// The layout loses nothing: the image of a block is `PUSH_CONSTANT_SIZE`
/// bytes long, and two blocks with the same image, read in the same byte
/// order, are the same block.
pub proof fn law_image_determines_block(a: ShaderConstants, b: ShaderConstants, order: ByteOrder)
    ensures
        memory_image(a.words(), order).len() == PUSH_CONSTANT_SIZE,
        memory_image(a.words(), order) == memory_image(b.words(), order) ==> a == b,
{
    if memory_image(a.words(), order) == memory_image(b.words(), order) {
        assert forall|j: int| 0 <= j < 11 implies a.words()[j] == b.words()[j] by {
            lemma_image_holds_word(a.words(), order, j);
            lemma_image_holds_word(b.words(), order, j);
        }
        assert(a.words()[0] == b.words()[0]);
        assert(a.words()[1] == b.words()[1]);
        assert(a.words()[2] == b.words()[2]);
        assert(a.words()[3] == b.words()[3]);
        assert(a.words()[4] == b.words()[4]);
        assert(a.words()[5] == b.words()[5]);
        assert(a.words()[6] == b.words()[6]);
        assert(a.words()[7] == b.words()[7]);
        assert(a.words()[8] == b.words()[8]);
        assert(a.words()[9] == b.words()[9]);
        assert(a.words()[10] == b.words()[10]);
    }
}

} // verus!
