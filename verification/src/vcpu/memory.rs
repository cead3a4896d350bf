//! The flat word memory of the machine and its byte image.

use vstd::prelude::*;

verus! {

/// Number of words in the address space.
pub const MEMORY_WORDS: usize = 65536;

/// Number of bytes in a memory image: two per word.
pub const IMAGE_BYTES: usize = 131072;

/// The word that an image stores at word index `i`: the byte at `2i` is the
/// low half, the byte at `2i + 1` the high half.
pub open spec fn image_word(image: Seq<u8>, i: int) -> u16 {
    (image[2 * i] + 256 * image[2 * i + 1]) as u16
}

/// The memory contents that a byte image describes.
pub open spec fn words_of_image(image: Seq<u8>) -> Seq<u16> {
    Seq::new(65536, |i: int| image_word(image, i))
}

/// The byte at position `k` of the image of `words`.
pub open spec fn image_byte(words: Seq<u16>, k: int) -> u8 {
    if k % 2 == 0 {
        (words[k / 2] % 256) as u8
    } else {
        (words[k / 2] / 256) as u8
    }
}

/// The byte image of a memory: little-endian, word by word.
pub open spec fn image_of_words(words: Seq<u16>) -> Seq<u8> {
    Seq::new(131072, |k: int| image_byte(words, k))
}

/// Why an image could not be loaded.
#[derive(Clone, Copy, Debug, PartialEq, Eq, Structural)]
pub enum ImageError {
    /// The image holds fewer bytes than a full memory; `found` is its length.
    Truncated { found: usize },
}

/// 65,536 words of 16 bits, addressed by word. Every address is valid.
pub struct Memory {
    data: [u16; 65536],
}

impl View for Memory {
    type V = Seq<u16>;

    closed spec fn view(&self) -> Seq<u16> {
        self.data@
    }
}

impl Memory {
    /// A memory holds exactly one word for each 16-bit address.
    pub proof fn lemma_len(&self)
        ensures
            self@.len() == 65536,
    {
    }

    /// A zero-filled memory.
    pub fn new() -> (memory: Memory)
        ensures
            memory@ == Seq::new(65536, |i: int| 0u16),
    {
        Memory { data: [0u16; 65536] }
    }

    /// Stores `value` at `address`; no other cell changes.
    pub fn set_memory(&mut self, address: u16, value: u16)
        ensures
            final(self)@ == old(self)@.update(address as int, value),
    {
        self.data[address as usize] = value;
    }

    /// The word at `address`.
    pub fn get_memory(&self, address: u16) -> (value: u16)
        ensures
            value == self@[address as int],
    {
        self.data[address as usize]
    }

    /// Replaces the whole memory by the contents of an image. An image shorter
    /// than a full memory is rejected and leaves the memory as it was; bytes
    /// beyond a full memory are ignored.
    pub fn load_memory(&mut self, image: &[u8]) -> (result: Result<(), ImageError>)
        ensures
            image@.len() >= 131072 ==> result == Ok::<(), ImageError>(()) && final(self)@
                == words_of_image(image@),
            image@.len() < 131072 ==> result == Err::<(), ImageError>(
                ImageError::Truncated { found: image@.len() as usize },
            ) && final(self)@ == old(self)@,
    {
        if image.len() < IMAGE_BYTES {
            return Err(ImageError::Truncated { found: image.len() });
        }
        let mut i: usize = 0;
        while i < MEMORY_WORDS
            invariant
                i <= 65536,
                image@.len() >= 131072,
                forall|j: int| 0 <= j < i ==> self@[j] == image_word(image@, j),
            decreases 65536 - i,
        {
            let low: u16 = image[2 * i] as u16;
            let high: u16 = image[2 * i + 1] as u16;
            self.data[i] = low + 256 * high;
            i = i + 1;
        }
        Ok(())
    }

    /// The image of the memory: 131,072 bytes, the low byte of each word first.
    pub fn save_memory(&self) -> (image: Vec<u8>)
        ensures
            image@ == image_of_words(self@),
    {
        let mut image: Vec<u8> = Vec::with_capacity(IMAGE_BYTES);
        let mut i: usize = 0;
        while i < MEMORY_WORDS
            invariant
                i <= 65536,
                image@.len() == 2 * i,
                forall|k: int| 0 <= k < 2 * i ==> image@[k] == image_byte(self@, k),
            decreases 65536 - i,
        {
            let word: u16 = self.data[i];
            image.push((word % 256) as u8);
            image.push((word / 256) as u8);
            i = i + 1;
        }
        image
    }
}

/// Saving the memory that an image was loaded into gives the image back.
pub proof fn lemma_image_round_trip(image: Seq<u8>)
    requires
        image.len() == 131072,
    ensures
        image_of_words(words_of_image(image)) == image,
{
    assert forall|k: int| 0 <= k < 131072 implies image_byte(words_of_image(image), k)
        == image[k] by {
        let i = k / 2;
        assert(words_of_image(image)[i] == image_word(image, i));
    }
    assert(image_of_words(words_of_image(image)) =~= image);
}

/// Loading the image that a memory was saved to gives the memory back.
pub proof fn lemma_words_round_trip(words: Seq<u16>)
    requires
        words.len() == 65536,
    ensures
        words_of_image(image_of_words(words)) == words,
{
    assert forall|i: int| 0 <= i < 65536 implies image_word(image_of_words(words), i)
        == words[i] by {
        assert(image_of_words(words)[2 * i] == image_byte(words, 2 * i));
        assert(image_of_words(words)[2 * i + 1] == image_byte(words, 2 * i + 1));
    }
    assert(words_of_image(image_of_words(words)) =~= words);
}

} // verus!
