use vstd::prelude::*;

verus! {

/// An 8 by 8 monochrome bitmap, row by row; entry `y * 8 + x` is the pixel
/// at column `x` of row `y`.
pub type CharSprite = [bool; 64];

/// The bitmap shown for a byte with no glyph of its own: a full box, so
/// corrupted output stays visible instead of vanishing.
pub const FALLBACK_GLYPH: u64 = 0xFF818181818181FFu64;

/// The glyph of the given byte, packed into 64 bits: bit `y * 8 + x` is the
/// pixel at column `x` of row `y`. Control bytes and the space draw nothing;
/// bytes past the ASCII range fall back to `FALLBACK_GLYPH`.
pub open spec fn glyph_bits_spec(c: u8) -> u64 {
    if c < 33 || c == 127 {
        0u64
    } else if c == 33 {
        0x00180018183C3C18u64
    } else if c == 34 {
        0x0000000000003636u64
    } else if c == 35 {
        0x0036367F367F3636u64
    } else if c == 36 {
        0x000C1F301E033E0Cu64
    } else if c == 37 {
        0x0063660C18336300u64
    } else if c == 38 {
        0x006E333B6E1C361Cu64
    } else if c == 39 {
        0x0000000000030606u64
    } else if c == 40 {
        0x00180C0606060C18u64
    } else if c == 41 {
        0x00060C1818180C06u64
    } else if c == 42 {
        0x0000663CFF3C6600u64
    } else if c == 43 {
        0x00000C0C3F0C0C00u64
    } else if c == 44 {
        0x060C0C0000000000u64
    } else if c == 45 {
        0x000000003F000000u64
    } else if c == 46 {
        0x000C0C0000000000u64
    } else if c == 47 {
        0x000103060C183060u64
    } else if c == 48 {
        0x003E676F7B73633Eu64
    } else if c == 49 {
        0x003F0C0C0C0C0E0Cu64
    } else if c == 50 {
        0x003F33061C30331Eu64
    } else if c == 51 {
        0x001E33301C30331Eu64
    } else if c == 52 {
        0x0078307F33363C38u64
    } else if c == 53 {
        0x001E3330301F033Fu64
    } else if c == 54 {
        0x001E33331F03061Cu64
    } else if c == 55 {
        0x000C0C0C1830333Fu64
    } else if c == 56 {
        0x001E33331E33331Eu64
    } else if c == 57 {
        0x000E18303E33331Eu64
    } else if c == 58 {
        0x000C0C00000C0C00u64
    } else if c == 59 {
        0x060C0C00000C0C00u64
    } else if c == 60 {
        0x00180C0603060C18u64
    } else if c == 61 {
        0x00003F00003F0000u64
    } else if c == 62 {
        0x00060C1830180C06u64
    } else if c == 63 {
        0x000C000C1830331Eu64
    } else if c == 64 {
        0x001E037B7B7B633Eu64
    } else if c == 65 {
        0x0033333F33331E0Cu64
    } else if c == 66 {
        0x003F66663E66663Fu64
    } else if c == 67 {
        0x003C66030303663Cu64
    } else if c == 68 {
        0x001F36666666361Fu64
    } else if c == 69 {
        0x007F46161E16467Fu64
    } else if c == 70 {
        0x000F06161E16467Fu64
    } else if c == 71 {
        0x007C66730303663Cu64
    } else if c == 72 {
        0x003333333F333333u64
    } else if c == 73 {
        0x001E0C0C0C0C0C1Eu64
    } else if c == 74 {
        0x001E333330303078u64
    } else if c == 75 {
        0x006766361E366667u64
    } else if c == 76 {
        0x007F66460606060Fu64
    } else if c == 77 {
        0x0063636B7F7F7763u64
    } else if c == 78 {
        0x006363737B6F6763u64
    } else if c == 79 {
        0x001C36636363361Cu64
    } else if c == 80 {
        0x000F06063E66663Fu64
    } else if c == 81 {
        0x00381E3B3333331Eu64
    } else if c == 82 {
        0x006766363E66663Fu64
    } else if c == 83 {
        0x001E33380E07331Eu64
    } else if c == 84 {
        0x001E0C0C0C0C2D3Fu64
    } else if c == 85 {
        0x003F333333333333u64
    } else if c == 86 {
        0x000C1E3333333333u64
    } else if c == 87 {
        0x0063777F6B636363u64
    } else if c == 88 {
        0x0063361C1C366363u64
    } else if c == 89 {
        0x001E0C0C1E333333u64
    } else if c == 90 {
        0x007F664C1831637Fu64
    } else if c == 91 {
        0x001E06060606061Eu64
    } else if c == 92 {
        0x00406030180C0603u64
    } else if c == 93 {
        0x001E18181818181Eu64
    } else if c == 94 {
        0x0000000063361C08u64
    } else if c == 95 {
        0xFF00000000000000u64
    } else if c == 96 {
        0x000000000030180Cu64
    } else if c == 97 {
        0x006E333E301E0000u64
    } else if c == 98 {
        0x003B66663E060607u64
    } else if c == 99 {
        0x001E3303331E0000u64
    } else if c == 100 {
        0x006E33333E303038u64
    } else if c == 101 {
        0x001E033F331E0000u64
    } else if c == 102 {
        0x000F06060F06361Cu64
    } else if c == 103 {
        0x1F303E33336E0000u64
    } else if c == 104 {
        0x006766666E360607u64
    } else if c == 105 {
        0x001E0C0C0C0E000Cu64
    } else if c == 106 {
        0x1E33333030300030u64
    } else if c == 107 {
        0x0067361E36660607u64
    } else if c == 108 {
        0x001E0C0C0C0C0C0Eu64
    } else if c == 109 {
        0x00636B7F7F330000u64
    } else if c == 110 {
        0x00333333331F0000u64
    } else if c == 111 {
        0x001E3333331E0000u64
    } else if c == 112 {
        0x0F063E66663B0000u64
    } else if c == 113 {
        0x78303E33336E0000u64
    } else if c == 114 {
        0x000F06666E3B0000u64
    } else if c == 115 {
        0x001F301E033E0000u64
    } else if c == 116 {
        0x00182C0C0C3E0C08u64
    } else if c == 117 {
        0x006E333333330000u64
    } else if c == 118 {
        0x000C1E3333330000u64
    } else if c == 119 {
        0x00367F7F6B630000u64
    } else if c == 120 {
        0x0063361C36630000u64
    } else if c == 121 {
        0x1F303E3333330000u64
    } else if c == 122 {
        0x003F260C193F0000u64
    } else if c == 123 {
        0x00380C0C070C0C38u64
    } else if c == 124 {
        0x0018181800181818u64
    } else if c == 125 {
        0x00070C0C380C0C07u64
    } else if c == 126 {
        0x0000000000003B6Eu64
    } else {
        FALLBACK_GLYPH
    }
}

/// The glyph of one byte as a flat 64-entry bitmap, pixel `y * 8 + x` at
/// index `y * 8 + x`.
pub open spec fn sprite_spec(c: u8) -> Seq<bool> {
    Seq::new(64, |i: int| (glyph_bits_spec(c) >> i) & 1 == 1)
}

/// Returns the packed glyph of the given byte.
pub fn glyph_bits(c: u8) -> (r: u64)
    ensures
        r == glyph_bits_spec(c),
{
    if c < 33 || c == 127 {
        0u64
    } else if c == 33 {
        0x00180018183C3C18u64
    } else if c == 34 {
        0x0000000000003636u64
    } else if c == 35 {
        0x0036367F367F3636u64
    } else if c == 36 {
        0x000C1F301E033E0Cu64
    } else if c == 37 {
        0x0063660C18336300u64
    } else if c == 38 {
        0x006E333B6E1C361Cu64
    } else if c == 39 {
        0x0000000000030606u64
    } else if c == 40 {
        0x00180C0606060C18u64
    } else if c == 41 {
        0x00060C1818180C06u64
    } else if c == 42 {
        0x0000663CFF3C6600u64
    } else if c == 43 {
        0x00000C0C3F0C0C00u64
    } else if c == 44 {
        0x060C0C0000000000u64
    } else if c == 45 {
        0x000000003F000000u64
    } else if c == 46 {
        0x000C0C0000000000u64
    } else if c == 47 {
        0x000103060C183060u64
    } else if c == 48 {
        0x003E676F7B73633Eu64
    } else if c == 49 {
        0x003F0C0C0C0C0E0Cu64
    } else if c == 50 {
        0x003F33061C30331Eu64
    } else if c == 51 {
        0x001E33301C30331Eu64
    } else if c == 52 {
        0x0078307F33363C38u64
    } else if c == 53 {
        0x001E3330301F033Fu64
    } else if c == 54 {
        0x001E33331F03061Cu64
    } else if c == 55 {
        0x000C0C0C1830333Fu64
    } else if c == 56 {
        0x001E33331E33331Eu64
    } else if c == 57 {
        0x000E18303E33331Eu64
    } else if c == 58 {
        0x000C0C00000C0C00u64
    } else if c == 59 {
        0x060C0C00000C0C00u64
    } else if c == 60 {
        0x00180C0603060C18u64
    } else if c == 61 {
        0x00003F00003F0000u64
    } else if c == 62 {
        0x00060C1830180C06u64
    } else if c == 63 {
        0x000C000C1830331Eu64
    } else if c == 64 {
        0x001E037B7B7B633Eu64
    } else if c == 65 {
        0x0033333F33331E0Cu64
    } else if c == 66 {
        0x003F66663E66663Fu64
    } else if c == 67 {
        0x003C66030303663Cu64
    } else if c == 68 {
        0x001F36666666361Fu64
    } else if c == 69 {
        0x007F46161E16467Fu64
    } else if c == 70 {
        0x000F06161E16467Fu64
    } else if c == 71 {
        0x007C66730303663Cu64
    } else if c == 72 {
        0x003333333F333333u64
    } else if c == 73 {
        0x001E0C0C0C0C0C1Eu64
    } else if c == 74 {
        0x001E333330303078u64
    } else if c == 75 {
        0x006766361E366667u64
    } else if c == 76 {
        0x007F66460606060Fu64
    } else if c == 77 {
        0x0063636B7F7F7763u64
    } else if c == 78 {
        0x006363737B6F6763u64
    } else if c == 79 {
        0x001C36636363361Cu64
    } else if c == 80 {
        0x000F06063E66663Fu64
    } else if c == 81 {
        0x00381E3B3333331Eu64
    } else if c == 82 {
        0x006766363E66663Fu64
    } else if c == 83 {
        0x001E33380E07331Eu64
    } else if c == 84 {
        0x001E0C0C0C0C2D3Fu64
    } else if c == 85 {
        0x003F333333333333u64
    } else if c == 86 {
        0x000C1E3333333333u64
    } else if c == 87 {
        0x0063777F6B636363u64
    } else if c == 88 {
        0x0063361C1C366363u64
    } else if c == 89 {
        0x001E0C0C1E333333u64
    } else if c == 90 {
        0x007F664C1831637Fu64
    } else if c == 91 {
        0x001E06060606061Eu64
    } else if c == 92 {
        0x00406030180C0603u64
    } else if c == 93 {
        0x001E18181818181Eu64
    } else if c == 94 {
        0x0000000063361C08u64
    } else if c == 95 {
        0xFF00000000000000u64
    } else if c == 96 {
        0x000000000030180Cu64
    } else if c == 97 {
        0x006E333E301E0000u64
    } else if c == 98 {
        0x003B66663E060607u64
    } else if c == 99 {
        0x001E3303331E0000u64
    } else if c == 100 {
        0x006E33333E303038u64
    } else if c == 101 {
        0x001E033F331E0000u64
    } else if c == 102 {
        0x000F06060F06361Cu64
    } else if c == 103 {
        0x1F303E33336E0000u64
    } else if c == 104 {
        0x006766666E360607u64
    } else if c == 105 {
        0x001E0C0C0C0E000Cu64
    } else if c == 106 {
        0x1E33333030300030u64
    } else if c == 107 {
        0x0067361E36660607u64
    } else if c == 108 {
        0x001E0C0C0C0C0C0Eu64
    } else if c == 109 {
        0x00636B7F7F330000u64
    } else if c == 110 {
        0x00333333331F0000u64
    } else if c == 111 {
        0x001E3333331E0000u64
    } else if c == 112 {
        0x0F063E66663B0000u64
    } else if c == 113 {
        0x78303E33336E0000u64
    } else if c == 114 {
        0x000F06666E3B0000u64
    } else if c == 115 {
        0x001F301E033E0000u64
    } else if c == 116 {
        0x00182C0C0C3E0C08u64
    } else if c == 117 {
        0x006E333333330000u64
    } else if c == 118 {
        0x000C1E3333330000u64
    } else if c == 119 {
        0x00367F7F6B630000u64
    } else if c == 120 {
        0x0063361C36630000u64
    } else if c == 121 {
        0x1F303E3333330000u64
    } else if c == 122 {
        0x003F260C193F0000u64
    } else if c == 123 {
        0x00380C0C070C0C38u64
    } else if c == 124 {
        0x0018181800181818u64
    } else if c == 125 {
        0x00070C0C380C0C07u64
    } else if c == 126 {
        0x0000000000003B6Eu64
    } else {
        FALLBACK_GLYPH
    }
}

/// Returns the 8 by 8 sprite of the given byte. Every byte has one: bytes
/// past the ASCII range get the fallback box, never a fault.
pub fn get_char_sprite(c: u8) -> (s: CharSprite)
    ensures
        s@ == sprite_spec(c),
{
    let bits = glyph_bits(c);
    let mut s: CharSprite = [false; 64];
    let mut i: usize = 0;
    while i < 64
        invariant
            i <= 64,
            bits == glyph_bits_spec(c),
            s@.len() == 64,
            forall|j: int| 0 <= j < i ==> s@[j] == ((bits >> j) & 1 == 1),
        decreases 64 - i,
    {
        s[i] = (bits >> (i as u64)) & 1 == 1;
        i = i + 1;
    }
    assert(s@ =~= sprite_spec(c));
    s
}

/// Past the ASCII range every byte shares the fallback box glyph.
pub proof fn lemma_sprite_fallback(c: u8)
    requires
        c >= 128,
    ensures
        glyph_bits_spec(c) == FALLBACK_GLYPH,
        sprite_spec(c) == sprite_spec(255u8),
{
    assert(sprite_spec(c) =~= sprite_spec(255u8));
}

} // verus!
