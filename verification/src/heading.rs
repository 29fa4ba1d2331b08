//! Whole-degree headings and their sines and cosines in thousandths.

use vstd::prelude::*;

verus! {

/// A thousand times the sine of 0 to 90 degrees, rounded to the nearest integer.
pub const QUARTER_SINES: [i64; 91] = [
    0, 17, 35, 52, 70, 87, 105, 122, 139, 156,
    174, 191, 208, 225, 242, 259, 276, 292, 309, 326,
    342, 358, 375, 391, 407, 423, 438, 454, 469, 485,
    500, 515, 530, 545, 559, 574, 588, 602, 616, 629,
    643, 656, 669, 682, 695, 707, 719, 731, 743, 755,
    766, 777, 788, 799, 809, 819, 829, 839, 848, 857,
    866, 875, 883, 891, 899, 906, 914, 921, 927, 934,
    940, 946, 951, 956, 961, 966, 970, 974, 978, 982,
    985, 988, 990, 993, 995, 996, 998, 999, 999, 1000,
    1000,
];

/// The sine of `degrees` in thousandths, for a heading from 0 up to 360:
/// the quarter table, mirrored about 90 degrees and negated past 180.
pub open spec fn sine_milli(degrees: int) -> int
    recommends
        0 <= degrees < 360,
{
    if degrees <= 90 {
        QUARTER_SINES@[degrees] as int
    } else if degrees <= 180 {
        QUARTER_SINES@[180 - degrees] as int
    } else if degrees <= 270 {
        -(QUARTER_SINES@[degrees - 180] as int)
    } else {
        -(QUARTER_SINES@[360 - degrees] as int)
    }
}

/// The cosine of `degrees` in thousandths: the sine a quarter turn ahead.
pub open spec fn cosine_milli(degrees: int) -> int
    recommends
        0 <= degrees < 360,
{
    sine_milli((degrees + 90) % 360)
}

/// No entry of the quarter table leaves the range from 0 to 1000.
pub proof fn lemma_quarter_sines_bounded(i: int)
    requires
        0 <= i <= 90,
    ensures
        0 <= QUARTER_SINES@[i] <= 1000,
{
}

/// Sine and cosine stay within a thousand thousandths.
pub proof fn lemma_sine_cosine_bounded(degrees: int)
    requires
        0 <= degrees < 360,
    ensures
        -1000 <= sine_milli(degrees) <= 1000,
        -1000 <= cosine_milli(degrees) <= 1000,
{
    let ahead = (degrees + 90) % 360;
    if degrees <= 90 {
        lemma_quarter_sines_bounded(degrees);
    } else if degrees <= 180 {
        lemma_quarter_sines_bounded(180 - degrees);
    } else if degrees <= 270 {
        lemma_quarter_sines_bounded(degrees - 180);
    } else {
        lemma_quarter_sines_bounded(360 - degrees);
    }
    if ahead <= 90 {
        lemma_quarter_sines_bounded(ahead);
    } else if ahead <= 180 {
        lemma_quarter_sines_bounded(180 - ahead);
    } else if ahead <= 270 {
        lemma_quarter_sines_bounded(ahead - 180);
    } else {
        lemma_quarter_sines_bounded(360 - ahead);
    }
}

/// The sine of a heading in whole degrees, in thousandths. Full turns do not count.
pub fn sine(degrees: u32) -> (s: i64)
    ensures
        s == sine_milli(degrees as int % 360),
        -1000 <= s <= 1000,
{
    let heading: u32 = degrees % 360;
    proof {
        lemma_sine_cosine_bounded(heading as int);
    }
    if heading <= 90 {
        QUARTER_SINES[heading as usize]
    } else if heading <= 180 {
        QUARTER_SINES[(180 - heading) as usize]
    } else if heading <= 270 {
        -QUARTER_SINES[(heading - 180) as usize]
    } else {
        -QUARTER_SINES[(360 - heading) as usize]
    }
}

/// The cosine of a heading in whole degrees, in thousandths. Full turns do not count.
pub fn cosine(degrees: u32) -> (c: i64)
    ensures
        c == cosine_milli(degrees as int % 360),
        -1000 <= c <= 1000,
{
    let heading: u32 = degrees % 360;
    proof {
        lemma_sine_cosine_bounded(heading as int);
    }
    sine((heading + 90) % 360)
}

/// Whether entry `i` of the quarter table and its mirror image are the
/// sides of a right triangle whose hypotenuse is a thousand, to within a
/// thousandth.
pub open spec fn pair_is_unit(i: int) -> bool {
    let a = QUARTER_SINES@[i] as int;
    let b = QUARTER_SINES@[90 - i] as int;
    998_000 <= a * a + b * b <= 1_002_000
}

/// The entries 0 to 9, each with its mirror image.
proof fn lemma_pairs_0_to_9(i: int)
    requires
        0 <= i <= 9,
    ensures
        pair_is_unit(i),
{
    if i == 0 {
        assert(QUARTER_SINES@[0] == 0 && QUARTER_SINES@[90] == 1000);
        assert(0 * 0 + 1000 * 1000 == 1_000_000);
    } else if i == 1 {
        assert(QUARTER_SINES@[1] == 17 && QUARTER_SINES@[89] == 1000);
        assert(17 * 17 + 1000 * 1000 == 1_000_289);
    } else if i == 2 {
        assert(QUARTER_SINES@[2] == 35 && QUARTER_SINES@[88] == 999);
        assert(35 * 35 + 999 * 999 == 999_226);
    } else if i == 3 {
        assert(QUARTER_SINES@[3] == 52 && QUARTER_SINES@[87] == 999);
        assert(52 * 52 + 999 * 999 == 1_000_705);
    } else if i == 4 {
        assert(QUARTER_SINES@[4] == 70 && QUARTER_SINES@[86] == 998);
        assert(70 * 70 + 998 * 998 == 1_000_904);
    } else if i == 5 {
        assert(QUARTER_SINES@[5] == 87 && QUARTER_SINES@[85] == 996);
        assert(87 * 87 + 996 * 996 == 999_585);
    } else if i == 6 {
        assert(QUARTER_SINES@[6] == 105 && QUARTER_SINES@[84] == 995);
        assert(105 * 105 + 995 * 995 == 1_001_050);
    } else if i == 7 {
        assert(QUARTER_SINES@[7] == 122 && QUARTER_SINES@[83] == 993);
        assert(122 * 122 + 993 * 993 == 1_000_933);
    } else if i == 8 {
        assert(QUARTER_SINES@[8] == 139 && QUARTER_SINES@[82] == 990);
        assert(139 * 139 + 990 * 990 == 999_421);
    } else if i == 9 {
        assert(QUARTER_SINES@[9] == 156 && QUARTER_SINES@[81] == 988);
        assert(156 * 156 + 988 * 988 == 1_000_480);
    }
}

/// The entries 10 to 19, each with its mirror image.
proof fn lemma_pairs_10_to_19(i: int)
    requires
        10 <= i <= 19,
    ensures
        pair_is_unit(i),
{
    if i == 10 {
        assert(QUARTER_SINES@[10] == 174 && QUARTER_SINES@[80] == 985);
        assert(174 * 174 + 985 * 985 == 1_000_501);
    } else if i == 11 {
        assert(QUARTER_SINES@[11] == 191 && QUARTER_SINES@[79] == 982);
        assert(191 * 191 + 982 * 982 == 1_000_805);
    } else if i == 12 {
        assert(QUARTER_SINES@[12] == 208 && QUARTER_SINES@[78] == 978);
        assert(208 * 208 + 978 * 978 == 999_748);
    } else if i == 13 {
        assert(QUARTER_SINES@[13] == 225 && QUARTER_SINES@[77] == 974);
        assert(225 * 225 + 974 * 974 == 999_301);
    } else if i == 14 {
        assert(QUARTER_SINES@[14] == 242 && QUARTER_SINES@[76] == 970);
        assert(242 * 242 + 970 * 970 == 999_464);
    } else if i == 15 {
        assert(QUARTER_SINES@[15] == 259 && QUARTER_SINES@[75] == 966);
        assert(259 * 259 + 966 * 966 == 1_000_237);
    } else if i == 16 {
        assert(QUARTER_SINES@[16] == 276 && QUARTER_SINES@[74] == 961);
        assert(276 * 276 + 961 * 961 == 999_697);
    } else if i == 17 {
        assert(QUARTER_SINES@[17] == 292 && QUARTER_SINES@[73] == 956);
        assert(292 * 292 + 956 * 956 == 999_200);
    } else if i == 18 {
        assert(QUARTER_SINES@[18] == 309 && QUARTER_SINES@[72] == 951);
        assert(309 * 309 + 951 * 951 == 999_882);
    } else if i == 19 {
        assert(QUARTER_SINES@[19] == 326 && QUARTER_SINES@[71] == 946);
        assert(326 * 326 + 946 * 946 == 1_001_192);
    }
}

/// The entries 20 to 29, each with its mirror image.
proof fn lemma_pairs_20_to_29(i: int)
    requires
        20 <= i <= 29,
    ensures
        pair_is_unit(i),
{
    if i == 20 {
        assert(QUARTER_SINES@[20] == 342 && QUARTER_SINES@[70] == 940);
        assert(342 * 342 + 940 * 940 == 1_000_564);
    } else if i == 21 {
        assert(QUARTER_SINES@[21] == 358 && QUARTER_SINES@[69] == 934);
        assert(358 * 358 + 934 * 934 == 1_000_520);
    } else if i == 22 {
        assert(QUARTER_SINES@[22] == 375 && QUARTER_SINES@[68] == 927);
        assert(375 * 375 + 927 * 927 == 999_954);
    } else if i == 23 {
        assert(QUARTER_SINES@[23] == 391 && QUARTER_SINES@[67] == 921);
        assert(391 * 391 + 921 * 921 == 1_001_122);
    } else if i == 24 {
        assert(QUARTER_SINES@[24] == 407 && QUARTER_SINES@[66] == 914);
        assert(407 * 407 + 914 * 914 == 1_001_045);
    } else if i == 25 {
        assert(QUARTER_SINES@[25] == 423 && QUARTER_SINES@[65] == 906);
        assert(423 * 423 + 906 * 906 == 999_765);
    } else if i == 26 {
        assert(QUARTER_SINES@[26] == 438 && QUARTER_SINES@[64] == 899);
        assert(438 * 438 + 899 * 899 == 1_000_045);
    } else if i == 27 {
        assert(QUARTER_SINES@[27] == 454 && QUARTER_SINES@[63] == 891);
        assert(454 * 454 + 891 * 891 == 999_997);
    } else if i == 28 {
        assert(QUARTER_SINES@[28] == 469 && QUARTER_SINES@[62] == 883);
        assert(469 * 469 + 883 * 883 == 999_650);
    } else if i == 29 {
        assert(QUARTER_SINES@[29] == 485 && QUARTER_SINES@[61] == 875);
        assert(485 * 485 + 875 * 875 == 1_000_850);
    }
}

/// The entries 30 to 39, each with its mirror image.
proof fn lemma_pairs_30_to_39(i: int)
    requires
        30 <= i <= 39,
    ensures
        pair_is_unit(i),
{
    if i == 30 {
        assert(QUARTER_SINES@[30] == 500 && QUARTER_SINES@[60] == 866);
        assert(500 * 500 + 866 * 866 == 999_956);
    } else if i == 31 {
        assert(QUARTER_SINES@[31] == 515 && QUARTER_SINES@[59] == 857);
        assert(515 * 515 + 857 * 857 == 999_674);
    } else if i == 32 {
        assert(QUARTER_SINES@[32] == 530 && QUARTER_SINES@[58] == 848);
        assert(530 * 530 + 848 * 848 == 1_000_004);
    } else if i == 33 {
        assert(QUARTER_SINES@[33] == 545 && QUARTER_SINES@[57] == 839);
        assert(545 * 545 + 839 * 839 == 1_000_946);
    } else if i == 34 {
        assert(QUARTER_SINES@[34] == 559 && QUARTER_SINES@[56] == 829);
        assert(559 * 559 + 829 * 829 == 999_722);
    } else if i == 35 {
        assert(QUARTER_SINES@[35] == 574 && QUARTER_SINES@[55] == 819);
        assert(574 * 574 + 819 * 819 == 1_000_237);
    } else if i == 36 {
        assert(QUARTER_SINES@[36] == 588 && QUARTER_SINES@[54] == 809);
        assert(588 * 588 + 809 * 809 == 1_000_225);
    } else if i == 37 {
        assert(QUARTER_SINES@[37] == 602 && QUARTER_SINES@[53] == 799);
        assert(602 * 602 + 799 * 799 == 1_000_805);
    } else if i == 38 {
        assert(QUARTER_SINES@[38] == 616 && QUARTER_SINES@[52] == 788);
        assert(616 * 616 + 788 * 788 == 1_000_400);
    } else if i == 39 {
        assert(QUARTER_SINES@[39] == 629 && QUARTER_SINES@[51] == 777);
        assert(629 * 629 + 777 * 777 == 999_370);
    }
}

/// The entries 40 to 45, each with its mirror image.
proof fn lemma_pairs_40_to_45(i: int)
    requires
        40 <= i <= 45,
    ensures
        pair_is_unit(i),
{
    if i == 40 {
        assert(QUARTER_SINES@[40] == 643 && QUARTER_SINES@[50] == 766);
        assert(643 * 643 + 766 * 766 == 1_000_205);
    } else if i == 41 {
        assert(QUARTER_SINES@[41] == 656 && QUARTER_SINES@[49] == 755);
        assert(656 * 656 + 755 * 755 == 1_000_361);
    } else if i == 42 {
        assert(QUARTER_SINES@[42] == 669 && QUARTER_SINES@[48] == 743);
        assert(669 * 669 + 743 * 743 == 999_610);
    } else if i == 43 {
        assert(QUARTER_SINES@[43] == 682 && QUARTER_SINES@[47] == 731);
        assert(682 * 682 + 731 * 731 == 999_485);
    } else if i == 44 {
        assert(QUARTER_SINES@[44] == 695 && QUARTER_SINES@[46] == 719);
        assert(695 * 695 + 719 * 719 == 999_986);
    } else if i == 45 {
        assert(QUARTER_SINES@[45] == 707);
        assert(707 * 707 + 707 * 707 == 999_698);
    }
}

/// Every entry of the quarter table forms such a triangle with its mirror image.
pub proof fn lemma_quarter_pairs_are_unit(i: int)
    requires
        0 <= i <= 90,
    ensures
        pair_is_unit(i),
{
    let k = if i <= 45 {
        i
    } else {
        90 - i
    };
    assert(pair_is_unit(k) ==> pair_is_unit(i));
    if k < 10 {
        lemma_pairs_0_to_9(k);
    } else if k < 20 {
        lemma_pairs_10_to_19(k);
    } else if k < 30 {
        lemma_pairs_20_to_29(k);
    } else if k < 40 {
        lemma_pairs_30_to_39(k);
    } else {
        lemma_pairs_40_to_45(k);
    }
}

/// A sign does not show in a sum of squares.
proof fn lemma_squares_ignore_signs(a: int, b: int, s: int, c: int)
    requires
        s == a || s == -a,
        c == b || c == -b,
    ensures
        s * s + c * c == a * a + b * b,
{
    assert(s * s == a * a) by (nonlinear_arith)
        requires
            s == a || s == -a,
    ;
    assert(c * c == b * b) by (nonlinear_arith)
        requires
            c == b || c == -b,
    ;
}

/// Every heading is a unit vector to within a thousandth: the squares of
/// its sine and cosine add up to a million, give or take two thousand.
pub proof fn lemma_heading_is_unit(degrees: int)
    requires
        0 <= degrees < 360,
    ensures
        998_000 <= sine_milli(degrees) * sine_milli(degrees) + cosine_milli(degrees)
            * cosine_milli(degrees) <= 1_002_000,
{
    let s = sine_milli(degrees);
    let c = cosine_milli(degrees);
    let i = if degrees <= 90 {
        degrees
    } else if degrees <= 180 {
        180 - degrees
    } else if degrees <= 270 {
        degrees - 180
    } else {
        360 - degrees
    };
    let a = QUARTER_SINES@[i] as int;
    let b = QUARTER_SINES@[90 - i] as int;
    assert(s == a || s == -a);
    assert(c == b || c == -b) by {
        if degrees <= 90 {
            assert((degrees + 90) % 360 == degrees + 90);
        } else if degrees <= 180 {
            assert((degrees + 90) % 360 == degrees + 90);
        } else if degrees < 270 {
            assert((degrees + 90) % 360 == degrees + 90);
        } else {
            assert((degrees + 90) % 360 == degrees - 270);
            assert(QUARTER_SINES@[0] == 0);
        }
    }
    lemma_quarter_pairs_are_unit(i);
    lemma_squares_ignore_signs(a, b, s, c);
}

} // verus!
