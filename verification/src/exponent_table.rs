//! Which exponents up to 63 pass the Lucas-Lehmer test, shown exponent by
//! exponent: a divisor for each that is not prime, and for each prime the
//! residues of the sequence, each with the quotient of its reduction.

use crate::mersenne_prime::{
    is_next_exponent, is_prime_number, lucas_lehmer_residue, mersenne_number,
    passes_lucas_lehmer, pow2,
};
use vstd::prelude::*;

verus! {

/// The exponents up to 63 that pass the Lucas-Lehmer test.
pub open spec fn is_passing_exponent(p: nat) -> bool {
    p == 2 || p == 3 || p == 5 || p == 7 || p == 13 || p == 17 || p == 19 || p == 31 || p == 61
}

/// The smallest exponent above `after` that passes the Lucas-Lehmer test,
/// for `after` below 61.
pub open spec fn next_passing_exponent(after: nat) -> nat {
    if after < 2 {
        2
    } else if after < 3 {
        3
    } else if after < 5 {
        5
    } else if after < 7 {
        7
    } else if after < 13 {
        13
    } else if after < 17 {
        17
    } else if after < 19 {
        19
    } else if after < 31 {
        31
    } else {
        61
    }
}

/// A number from 2 to 63 that none of 2, 3, 5 and 7 divides, unless it
/// is that number itself, is prime: any divisor would come with another
/// below 8.
proof fn lemma_small_prime(n: nat)
    requires
        2 <= n < 64,
        n % 2 != 0 || n == 2,
        n % 3 != 0 || n == 3,
        n % 5 != 0 || n == 5,
        n % 7 != 0 || n == 7,
    ensures
        is_prime_number(n),
{
    assert forall|d: nat| 2 <= d < n implies #[trigger] (n % d) != 0 by {
        let a = n as u8;
        let b = d as u8;
        assert(a < 64 && 2 <= b < a && (a % 2 != 0 || a == 2) && (a % 3 != 0 || a == 3) && (a % 5
            != 0 || a == 5) && (a % 7 != 0 || a == 7) ==> a % b != 0) by (bit_vector);
    }
}

/// One step of the Lucas-Lehmer sequence, given the quotient of the
/// reduction.
proof fn lemma_residue_step(p: nat, k: nat, prev: int, quotient: int, next: int)
    requires
        k >= 1,
        lucas_lehmer_residue(p, (k - 1) as nat) == prev,
        0 <= next < mersenne_number(p),
        prev * prev - 2 == quotient * mersenne_number(p) + next,
    ensures
        lucas_lehmer_residue(p, k) == next,
{
    vstd::arithmetic::div_mod::lemma_fundamental_div_mod_converse(
        prev * prev - 2,
        mersenne_number(p),
        quotient,
        next,
    );
}

/// The powers of two up to the 63rd.
pub proof fn lemma_pow2_values()
    ensures
        pow2(0) == 0x1,
        pow2(1) == 0x2,
        pow2(2) == 0x4,
        pow2(3) == 0x8,
        pow2(4) == 0x10,
        pow2(5) == 0x20,
        pow2(6) == 0x40,
        pow2(7) == 0x80,
        pow2(8) == 0x100,
        pow2(9) == 0x200,
        pow2(10) == 0x400,
        pow2(11) == 0x800,
        pow2(12) == 0x1000,
        pow2(13) == 0x2000,
        pow2(14) == 0x4000,
        pow2(15) == 0x8000,
        pow2(16) == 0x10000,
        pow2(17) == 0x20000,
        pow2(18) == 0x40000,
        pow2(19) == 0x80000,
        pow2(20) == 0x100000,
        pow2(21) == 0x200000,
        pow2(22) == 0x400000,
        pow2(23) == 0x800000,
        pow2(24) == 0x1000000,
        pow2(25) == 0x2000000,
        pow2(26) == 0x4000000,
        pow2(27) == 0x8000000,
        pow2(28) == 0x10000000,
        pow2(29) == 0x20000000,
        pow2(30) == 0x40000000,
        pow2(31) == 0x80000000,
        pow2(32) == 0x100000000,
        pow2(33) == 0x200000000,
        pow2(34) == 0x400000000,
        pow2(35) == 0x800000000,
        pow2(36) == 0x1000000000,
        pow2(37) == 0x2000000000,
        pow2(38) == 0x4000000000,
        pow2(39) == 0x8000000000,
        pow2(40) == 0x10000000000,
        pow2(41) == 0x20000000000,
        pow2(42) == 0x40000000000,
        pow2(43) == 0x80000000000,
        pow2(44) == 0x100000000000,
        pow2(45) == 0x200000000000,
        pow2(46) == 0x400000000000,
        pow2(47) == 0x800000000000,
        pow2(48) == 0x1000000000000,
        pow2(49) == 0x2000000000000,
        pow2(50) == 0x4000000000000,
        pow2(51) == 0x8000000000000,
        pow2(52) == 0x10000000000000,
        pow2(53) == 0x20000000000000,
        pow2(54) == 0x40000000000000,
        pow2(55) == 0x80000000000000,
        pow2(56) == 0x100000000000000,
        pow2(57) == 0x200000000000000,
        pow2(58) == 0x400000000000000,
        pow2(59) == 0x800000000000000,
        pow2(60) == 0x1000000000000000,
        pow2(61) == 0x2000000000000000,
        pow2(62) == 0x4000000000000000,
        pow2(63) == 0x8000000000000000,
{
    assert(pow2(0) == 1);
    assert(pow2(1) == 2 * pow2(0));
    assert(pow2(2) == 2 * pow2(1));
    assert(pow2(3) == 2 * pow2(2));
    assert(pow2(4) == 2 * pow2(3));
    assert(pow2(5) == 2 * pow2(4));
    assert(pow2(6) == 2 * pow2(5));
    assert(pow2(7) == 2 * pow2(6));
    assert(pow2(8) == 2 * pow2(7));
    assert(pow2(9) == 2 * pow2(8));
    assert(pow2(10) == 2 * pow2(9));
    assert(pow2(11) == 2 * pow2(10));
    assert(pow2(12) == 2 * pow2(11));
    assert(pow2(13) == 2 * pow2(12));
    assert(pow2(14) == 2 * pow2(13));
    assert(pow2(15) == 2 * pow2(14));
    assert(pow2(16) == 2 * pow2(15));
    assert(pow2(17) == 2 * pow2(16));
    assert(pow2(18) == 2 * pow2(17));
    assert(pow2(19) == 2 * pow2(18));
    assert(pow2(20) == 2 * pow2(19));
    assert(pow2(21) == 2 * pow2(20));
    assert(pow2(22) == 2 * pow2(21));
    assert(pow2(23) == 2 * pow2(22));
    assert(pow2(24) == 2 * pow2(23));
    assert(pow2(25) == 2 * pow2(24));
    assert(pow2(26) == 2 * pow2(25));
    assert(pow2(27) == 2 * pow2(26));
    assert(pow2(28) == 2 * pow2(27));
    assert(pow2(29) == 2 * pow2(28));
    assert(pow2(30) == 2 * pow2(29));
    assert(pow2(31) == 2 * pow2(30));
    assert(pow2(32) == 2 * pow2(31));
    assert(pow2(33) == 2 * pow2(32));
    assert(pow2(34) == 2 * pow2(33));
    assert(pow2(35) == 2 * pow2(34));
    assert(pow2(36) == 2 * pow2(35));
    assert(pow2(37) == 2 * pow2(36));
    assert(pow2(38) == 2 * pow2(37));
    assert(pow2(39) == 2 * pow2(38));
    assert(pow2(40) == 2 * pow2(39));
    assert(pow2(41) == 2 * pow2(40));
    assert(pow2(42) == 2 * pow2(41));
    assert(pow2(43) == 2 * pow2(42));
    assert(pow2(44) == 2 * pow2(43));
    assert(pow2(45) == 2 * pow2(44));
    assert(pow2(46) == 2 * pow2(45));
    assert(pow2(47) == 2 * pow2(46));
    assert(pow2(48) == 2 * pow2(47));
    assert(pow2(49) == 2 * pow2(48));
    assert(pow2(50) == 2 * pow2(49));
    assert(pow2(51) == 2 * pow2(50));
    assert(pow2(52) == 2 * pow2(51));
    assert(pow2(53) == 2 * pow2(52));
    assert(pow2(54) == 2 * pow2(53));
    assert(pow2(55) == 2 * pow2(54));
    assert(pow2(56) == 2 * pow2(55));
    assert(pow2(57) == 2 * pow2(56));
    assert(pow2(58) == 2 * pow2(57));
    assert(pow2(59) == 2 * pow2(58));
    assert(pow2(60) == 2 * pow2(59));
    assert(pow2(61) == 2 * pow2(60));
    assert(pow2(62) == 2 * pow2(61));
    assert(pow2(63) == 2 * pow2(62));
}

proof fn lemma_residue_3()
    ensures
        lucas_lehmer_residue(3, 1) == 0,
{
    lemma_pow2_values();
    assert(mersenne_number(3) == 0x7);
    assert(lucas_lehmer_residue(3, 0) == 4);
    lemma_residue_step(3, 1, 4, 2, 0);
}

proof fn lemma_residue_5()
    ensures
        lucas_lehmer_residue(5, 3) == 0,
{
    lemma_pow2_values();
    assert(mersenne_number(5) == 0x1f);
    assert(lucas_lehmer_residue(5, 0) == 4);
    lemma_residue_step(5, 1, 4, 0, 14);
    lemma_residue_step(5, 2, 14, 6, 8);
    lemma_residue_step(5, 3, 8, 2, 0);
}

proof fn lemma_residue_7()
    ensures
        lucas_lehmer_residue(7, 5) == 0,
{
    lemma_pow2_values();
    assert(mersenne_number(7) == 0x7f);
    assert(lucas_lehmer_residue(7, 0) == 4);
    lemma_residue_step(7, 1, 4, 0, 14);
    lemma_residue_step(7, 2, 14, 1, 67);
    lemma_residue_step(7, 3, 67, 35, 42);
    lemma_residue_step(7, 4, 42, 13, 111);
    lemma_residue_step(7, 5, 111, 97, 0);
}

proof fn lemma_residue_11()
    ensures
        lucas_lehmer_residue(11, 9) == 1736,
{
    lemma_pow2_values();
    assert(mersenne_number(11) == 0x7ff);
    assert(lucas_lehmer_residue(11, 0) == 4);
    lemma_residue_step(11, 1, 4, 0, 14);
    lemma_residue_step(11, 2, 14, 0, 194);
    lemma_residue_step(11, 3, 194, 18, 788);
    lemma_residue_step(11, 4, 788, 303, 701);
    lemma_residue_step(11, 5, 701, 240, 119);
    lemma_residue_step(11, 6, 119, 6, 1877);
    lemma_residue_step(11, 7, 1877, 1721, 240);
    lemma_residue_step(11, 8, 240, 28, 282);
    lemma_residue_step(11, 9, 282, 38, 1736);
}

proof fn lemma_residue_13()
    ensures
        lucas_lehmer_residue(13, 11) == 0,
{
    lemma_pow2_values();
    assert(mersenne_number(13) == 0x1fff);
    assert(lucas_lehmer_residue(13, 0) == 4);
    lemma_residue_step(13, 1, 4, 0, 14);
    lemma_residue_step(13, 2, 14, 0, 194);
    lemma_residue_step(13, 3, 194, 4, 4870);
    lemma_residue_step(13, 4, 4870, 2895, 3953);
    lemma_residue_step(13, 5, 3953, 1907, 5970);
    lemma_residue_step(13, 6, 5970, 4351, 1857);
    lemma_residue_step(13, 7, 1857, 421, 36);
    lemma_residue_step(13, 8, 36, 0, 1294);
    lemma_residue_step(13, 9, 1294, 204, 3470);
    lemma_residue_step(13, 10, 3470, 1470, 128);
    lemma_residue_step(13, 11, 128, 2, 0);
}

proof fn lemma_residue_17()
    ensures
        lucas_lehmer_residue(17, 15) == 0,
{
    lemma_pow2_values();
    assert(mersenne_number(17) == 0x1ffff);
    assert(lucas_lehmer_residue(17, 0) == 4);
    lemma_residue_step(17, 1, 4, 0, 14);
    lemma_residue_step(17, 2, 14, 0, 194);
    lemma_residue_step(17, 3, 194, 0, 37634);
    lemma_residue_step(17, 4, 37634, 10805, 95799);
    lemma_residue_step(17, 5, 95799, 70018, 119121);
    lemma_residue_step(17, 6, 119121, 108260, 66179);
    lemma_residue_step(17, 7, 66179, 33414, 53645);
    lemma_residue_step(17, 8, 53645, 21955, 122218);
    lemma_residue_step(17, 9, 122218, 113962, 126220);
    lemma_residue_step(17, 10, 126220, 121548, 70490);
    lemma_residue_step(17, 11, 70490, 37909, 69559);
    lemma_residue_step(17, 12, 69559, 36914, 99585);
    lemma_residue_step(17, 13, 99585, 75662, 78221);
    lemma_residue_step(17, 14, 78221, 46680, 130559);
    lemma_residue_step(17, 15, 130559, 130049, 0);
}

proof fn lemma_residue_19()
    ensures
        lucas_lehmer_residue(19, 17) == 0,
{
    lemma_pow2_values();
    assert(mersenne_number(19) == 0x7ffff);
    assert(lucas_lehmer_residue(19, 0) == 4);
    lemma_residue_step(19, 1, 4, 0, 14);
    lemma_residue_step(19, 2, 14, 0, 194);
    lemma_residue_step(19, 3, 194, 0, 37634);
    lemma_residue_step(19, 4, 37634, 2701, 218767);
    lemma_residue_step(19, 5, 218767, 91283, 510066);
    lemma_residue_step(19, 6, 510066, 496230, 386344);
    lemma_residue_step(19, 7, 386344, 284694, 323156);
    lemma_residue_step(19, 8, 323156, 199184, 218526);
    lemma_residue_step(19, 9, 218526, 91082, 504140);
    lemma_residue_step(19, 10, 504140, 484767, 103469);
    lemma_residue_step(19, 11, 103469, 20419, 417706);
    lemma_residue_step(19, 12, 417706, 332791, 307417);
    lemma_residue_step(19, 13, 307417, 180254, 382989);
    lemma_residue_step(19, 14, 382989, 279771, 275842);
    lemma_residue_step(19, 15, 275842, 145128, 85226);
    lemma_residue_step(19, 16, 85226, 13853, 523263);
    lemma_residue_step(19, 17, 523263, 522241, 0);
}

proof fn lemma_residue_23()
    ensures
        lucas_lehmer_residue(23, 21) == 6107895,
{
    lemma_pow2_values();
    assert(mersenne_number(23) == 0x7fffff);
    assert(lucas_lehmer_residue(23, 0) == 4);
    lemma_residue_step(23, 1, 4, 0, 14);
    lemma_residue_step(23, 2, 14, 0, 194);
    lemma_residue_step(23, 3, 194, 0, 37634);
    lemma_residue_step(23, 4, 37634, 168, 7031978);
    lemma_residue_step(23, 5, 7031978, 5894746, 7033660);
    lemma_residue_step(23, 6, 7033660, 5897567, 1176429);
    lemma_residue_step(23, 7, 1176429, 164983, 7643358);
    lemma_residue_step(23, 8, 7643358, 6964317, 3179743);
    lemma_residue_step(23, 9, 3179743, 1205297, 2694768);
    lemma_residue_step(23, 10, 2694768, 865671, 763525);
    lemma_residue_step(23, 11, 763525, 69495, 4182158);
    lemma_residue_step(23, 12, 4182158, 2085023, 7004001);
    lemma_residue_step(23, 13, 7004001, 5847935, 1531454);
    lemma_residue_step(23, 14, 1531454, 279587, 5888805);
    lemma_residue_step(23, 15, 5888805, 4133943, 1140622);
    lemma_residue_step(23, 16, 1140622, 155093, 4321431);
    lemma_residue_step(23, 17, 4321431, 2226205, 7041324);
    lemma_residue_step(23, 18, 7041324, 5910426, 2756392);
    lemma_residue_step(23, 19, 2756392, 905716, 1280050);
    lemma_residue_step(23, 20, 1280050, 195327, 6563009);
    lemma_residue_step(23, 21, 6563009, 5134712, 6107895);
}

proof fn lemma_residue_29()
    ensures
        lucas_lehmer_residue(29, 27) == 458738443,
{
    lemma_pow2_values();
    assert(mersenne_number(29) == 0x1fffffff);
    assert(lucas_lehmer_residue(29, 0) == 4);
    lemma_residue_step(29, 1, 4, 0, 14);
    lemma_residue_step(29, 2, 14, 0, 194);
    lemma_residue_step(29, 3, 194, 0, 37634);
    lemma_residue_step(29, 4, 37634, 2, 342576132);
    lemma_residue_step(29, 5, 342576132, 218597066, 250734296);
    lemma_residue_step(29, 6, 250734296, 117100192, 433300702);
    lemma_residue_step(29, 7, 433300702, 349710693, 16341479);
    lemma_residue_step(29, 8, 16341479, 497408, 49808751);
    lemma_residue_step(29, 9, 49808751, 4621058, 57936161);
    lemma_residue_step(29, 10, 57936161, 6252152, 211467447);
    lemma_residue_step(29, 11, 211467447, 83294662, 71320725);
    lemma_residue_step(29, 12, 71320725, 9474616, 91230447);
    lemma_residue_step(29, 13, 91230447, 15502785, 153832672);
    lemma_residue_step(29, 14, 153832672, 44078549, 217471443);
    lemma_residue_step(29, 15, 217471443, 88091620, 239636427);
    lemma_residue_step(29, 16, 239636427, 106963547, 223645010);
    lemma_residue_step(29, 17, 223645010, 93164091, 90243197);
    lemma_residue_step(29, 18, 90243197, 15169074, 27374393);
    lemma_residue_step(29, 19, 27374393, 1395786, 490737401);
    lemma_residue_step(29, 20, 490737401, 448568160, 35441039);
    lemma_residue_step(29, 21, 35441039, 2339607, 303927542);
    lemma_residue_step(29, 22, 303927542, 172056166, 202574536);
    lemma_residue_step(29, 23, 202574536, 76436330, 515018664);
    lemma_residue_step(29, 24, 515018664, 494055868, 330289146);
    lemma_residue_step(29, 25, 330289146, 203197673, 148819211);
    lemma_residue_step(29, 26, 148819211, 41252295, 365171774);
    lemma_residue_step(29, 27, 365171774, 248384521, 458738443);
}

proof fn lemma_residue_31()
    ensures
        lucas_lehmer_residue(31, 29) == 0,
{
    lemma_pow2_values();
    assert(mersenne_number(31) == 0x7fffffff);
    assert(lucas_lehmer_residue(31, 0) == 4);
    lemma_residue_step(31, 1, 4, 0, 14);
    lemma_residue_step(31, 2, 14, 0, 194);
    lemma_residue_step(31, 3, 194, 0, 37634);
    lemma_residue_step(31, 4, 37634, 0, 1416317954);
    lemma_residue_step(31, 5, 1416317954, 934096308, 669670838);
    lemma_residue_step(31, 6, 669670838, 208830009, 1937259419);
    lemma_residue_step(31, 7, 1937259419, 1747614731, 425413602);
    lemma_residue_step(31, 8, 425413602, 84273858, 842014276);
    lemma_residue_step(31, 9, 842014276, 330148284, 12692426);
    lemma_residue_step(31, 10, 12692426, 75016, 2044502122);
    lemma_residue_step(31, 11, 2044502122, 1946459025, 1119438707);
    lemma_residue_step(31, 12, 1119438707, 583540191, 1190075270);
    lemma_residue_step(31, 13, 1190075270, 659506371, 1450757861);
    lemma_residue_step(31, 14, 1450757861, 980076553, 877666528);
    lemma_residue_step(31, 15, 877666528, 358698207, 630853853);
    lemma_residue_step(31, 16, 630853853, 185322288, 940321271);
    lemma_residue_step(31, 17, 940321271, 411739616, 512995887);
    lemma_residue_step(31, 18, 512995887, 122545650, 692931217);
    lemma_residue_step(31, 19, 692931217, 223588976, 1883625615);
    lemma_residue_step(31, 20, 1883625615, 1652187415, 1992425718);
    lemma_residue_step(31, 21, 1992425718, 1848563665, 721929267);
    lemma_residue_step(31, 22, 721929267, 242694219, 27220594);
    lemma_residue_step(31, 23, 27220594, 345036, 1570086542);
    lemma_residue_step(31, 24, 1570086542, 1147935050, 1676390412);
    lemma_residue_step(31, 25, 1676390412, 1308640844, 1159251674);
    lemma_residue_step(31, 26, 1159251674, 625785647, 211987665);
    lemma_residue_step(31, 27, 211987665, 20926245, 1181536708);
    lemma_residue_step(31, 28, 1181536708, 650076658, 65536);
    lemma_residue_step(31, 29, 65536, 2, 0);
}

proof fn lemma_residue_37()
    ensures
        lucas_lehmer_residue(37, 35) == 117093979072,
{
    lemma_pow2_values();
    assert(mersenne_number(37) == 0x1fffffffff);
    assert(lucas_lehmer_residue(37, 0) == 4);
    lemma_residue_step(37, 1, 4, 0, 14);
    lemma_residue_step(37, 2, 14, 0, 194);
    lemma_residue_step(37, 3, 194, 0, 37634);
    lemma_residue_step(37, 4, 37634, 0, 1416317954);
    lemma_residue_step(37, 5, 1416317954, 14595254, 111419319480);
    lemma_residue_step(37, 6, 111419319480, 90325664157, 75212031451);
    lemma_residue_step(37, 7, 75212031451, 41158998465, 42117743384);
    lemma_residue_step(37, 8, 42117743384, 12906852554, 134212256520);
    lemma_residue_step(37, 9, 134212256520, 131061313734, 54923239684);
    lemma_residue_step(37, 10, 54923239684, 21948379125, 61369726979);
    lemma_residue_step(37, 11, 61369726979, 27403027266, 100682126153);
    lemma_residue_step(37, 12, 100682126153, 73755585812, 46790825955);
    lemma_residue_step(37, 13, 46790825955, 15929846220, 120336432403);
    lemma_residue_step(37, 14, 120336432403, 105362101484, 15532303443);
    lemma_residue_step(37, 15, 15532303443, 1755342602, 43487582705);
    lemma_residue_step(37, 16, 43487582705, 13760071666, 63215664337);
    lemma_residue_step(37, 17, 63215664337, 29076328920, 24881968247);
    lemma_residue_step(37, 18, 24881968247, 4504635172, 36378170995);
    lemma_residue_step(37, 19, 36378170995, 9628793668, 23347868395);
    lemma_residue_step(37, 20, 23347868395, 3966291541, 34319987212);
    lemma_residue_step(37, 21, 34319987212, 8570070511, 27325339261);
    lemma_residue_step(37, 22, 27325339261, 5432769581, 67024860468);
    lemma_residue_step(37, 23, 67024860468, 32686016644, 67821607698);
    lemma_residue_step(37, 24, 67821607698, 33467734980, 45433743622);
    lemma_residue_step(37, 25, 45433743622, 15019214039, 32514699513);
    lemma_residue_step(37, 26, 32514699513, 7692183749, 51489094388);
    lemma_residue_step(37, 27, 51489094388, 19289486524, 44855569738);
    lemma_residue_step(37, 28, 44855569738, 14639387784, 31479590378);
    lemma_residue_step(37, 29, 31479590378, 7210216502, 32455804440);
    lemma_residue_step(37, 30, 32455804440, 7664342715, 54840899833);
    lemma_residue_step(37, 31, 54840899833, 21882619290, 71222372297);
    lemma_residue_step(37, 32, 71222372297, 36908214065, 35230286592);
    lemma_residue_step(37, 33, 35230286592, 9030722819, 24416019713);
    lemma_residue_step(37, 34, 24416019713, 4337504059, 80429963578);
    lemma_residue_step(37, 35, 80429963578, 47068017310, 117093979072);
}

proof fn lemma_residue_41()
    ensures
        lucas_lehmer_residue(41, 39) == 856605019673,
{
    lemma_pow2_values();
    assert(mersenne_number(41) == 0x1ffffffffff);
    assert(lucas_lehmer_residue(41, 0) == 4);
    lemma_residue_step(41, 1, 4, 0, 14);
    lemma_residue_step(41, 2, 14, 0, 194);
    lemma_residue_step(41, 3, 194, 0, 37634);
    lemma_residue_step(41, 4, 37634, 0, 1416317954);
    lemma_residue_step(41, 5, 1416317954, 912203, 936039357261);
    lemma_residue_step(41, 6, 936039357261, 398435840153, 138087482816);
    lemma_residue_step(41, 7, 138087482816, 8671192022, 732796875732);
    lemma_residue_step(41, 8, 732796875732, 244195353426, 1310689168096);
    lemma_residue_step(41, 9, 1310689168096, 781213245938, 2039757563376);
    lemma_residue_step(41, 10, 2039757563376, 1892026792734, 1958864550940);
    lemma_residue_step(41, 11, 1958864550940, 1744933947034, 1204974397864);
    lemma_residue_step(41, 12, 1204974397864, 660276464035, 1760902154209);
    lemma_residue_step(41, 13, 1760902154209, 1410069852090, 627974964089);
    lemma_residue_step(41, 14, 627974964089, 179330779939, 621098408530);
    lemma_residue_step(41, 15, 621098408530, 175424808311, 2033435076537);
    lemma_residue_step(41, 16, 2033435076537, 1880315817512, 1756790903255);
    lemma_residue_step(41, 17, 1756790903255, 1403493241814, 1869608785509);
    lemma_residue_step(41, 18, 1869608785509, 1589540720876, 813059806403);
    lemma_residue_step(41, 19, 813059806403, 300618125396, 2133168725211);
    lemma_residue_step(41, 20, 2133168725211, 2069286351898, 330659108721);
    lemma_residue_step(41, 21, 330659108721, 49720004508, 973542231931);
    lemma_residue_step(41, 22, 973542231931, 431002480287, 1918555165622);
    lemma_residue_step(41, 23, 1918555165622, 1673858570728, 629498535754);
    lemma_residue_step(41, 24, 629498535754, 180202008103, 943274618761);
    lemma_residue_step(41, 25, 943274618761, 404619189066, 388990169753);
    lemma_residue_step(41, 26, 388990169753, 68809346050, 1261413657457);
    lemma_residue_step(41, 27, 1261413657457, 723577802645, 2198852974452);
    lemma_residue_step(41, 28, 2198852974452, 2198682706538, 1531052207864);
    lemma_residue_step(41, 29, 1531052207864, 1065982752700, 1658528204794);
    lemma_residue_step(41, 30, 1658528204794, 1250880725864, 1757157311370);
    lemma_residue_step(41, 31, 1757157311370, 1404078746828, 1370256634670);
    lemma_residue_step(41, 32, 1370256634670, 853835101615, 17648194033);
    lemma_residue_step(41, 33, 17648194033, 141635042, 1467474186945);
    lemma_residue_step(41, 34, 1467474186945, 979289547717, 2185108805956);
    lemma_residue_step(41, 35, 2185108805956, 2171282400863, 110389133421);
    lemma_residue_step(41, 36, 110389133421, 5541442432, 174248223207);
    lemma_residue_step(41, 37, 174248223207, 13807240652, 2059341505595);
    lemma_residue_step(41, 38, 2059341505595, 1928532327232, 1222323839191);
    lemma_residue_step(41, 39, 1222323839191, 679426906506, 856605019673);
}

proof fn lemma_residue_43()
    ensures
        lucas_lehmer_residue(43, 41) == 5774401272921,
{
    lemma_pow2_values();
    assert(mersenne_number(43) == 0x7ffffffffff);
    assert(lucas_lehmer_residue(43, 0) == 4);
    lemma_residue_step(43, 1, 4, 0, 14);
    lemma_residue_step(43, 2, 14, 0, 194);
    lemma_residue_step(43, 3, 194, 0, 37634);
    lemma_residue_step(43, 4, 37634, 0, 1416317954);
    lemma_residue_step(43, 5, 1416317954, 228050, 7533108439764);
    lemma_residue_step(43, 6, 7533108439764, 6451469149084, 2102210667306);
    lemma_residue_step(43, 7, 2102210667306, 502415069801, 6918869226827);
    lemma_residue_step(43, 8, 6918869226827, 5442274343515, 5175535050322);
    lemma_residue_step(43, 9, 5175535050322, 3045234172658, 8206606087476);
    lemma_residue_step(43, 10, 8206606087476, 7656624742936, 1325849670822);
    lemma_residue_step(43, 11, 1325849670822, 199847516980, 5632808580822);
    lemma_residue_step(43, 12, 5632808580822, 3607116526403, 973525364261);
    lemma_residue_step(43, 13, 973525364261, 107746886312, 5998615745535);
    lemma_residue_step(43, 14, 5998615745535, 4090837917668, 1115110782947);
    lemma_residue_step(43, 15, 1115110782947, 141366406097, 368544808728);
    lemma_residue_step(43, 16, 368544808728, 15441546115, 6118995402177);
    lemma_residue_step(43, 17, 6118995402177, 4256674484607, 5055245671678);
    lemma_residue_step(43, 18, 5055245671678, 2905324981955, 1099682060997);
    lemma_residue_step(43, 19, 1099682060997, 137481565079, 5120165924654);
    lemma_residue_step(43, 20, 5120165924654, 2980425403619, 6383299852581);
    lemma_residue_step(43, 21, 6383299852581, 4632342666805, 5389865622924);
    lemma_residue_step(43, 22, 5389865622924, 3302676695191, 2688421203237);
    lemma_residue_step(43, 23, 2688421203237, 821683962159, 8098324613254);
    lemma_residue_step(43, 24, 8098324613254, 7455908137403, 8630186160093);
    lemma_residue_step(43, 25, 8630186160093, 8467408538066, 2442682936985);
    lemma_residue_step(43, 26, 2442682936985, 678335246748, 519092357387);
    lemma_residue_step(43, 27, 519092357387, 30633700077, 5911194857828);
    lemma_residue_step(43, 28, 5911194857828, 3972471023100, 2776822895882);
    lemma_residue_step(43, 29, 2776822895882, 876610260444, 7967266878014);
    lemma_residue_step(43, 30, 7967266878014, 7216538222736, 715596285842);
    lemma_residue_step(43, 31, 715596285842, 58216533524, 3329077681494);
    lemma_residue_step(43, 32, 3329077681494, 1259963734062, 4832101757200);
    lemma_residue_step(43, 33, 4832101757200, 2654497551695, 5372986349133);
    lemma_residue_step(43, 34, 5372986349133, 3282023306834, 6273032989049);
    lemma_residue_step(43, 35, 6273032989049, 4473684257584, 5105733756511);
    lemma_residue_step(43, 36, 5105733756511, 2963647283693, 1200756922668);
    lemma_residue_step(43, 37, 1200756922668, 163915636600, 7246990262022);
    lemma_residue_step(43, 38, 7246990262022, 5970704007478, 1088867464536);
    lemma_residue_step(43, 39, 1088867464536, 134790793177, 3100612613655);
    lemma_residue_step(43, 40, 3100612613655, 1092962359047, 8271814102294);
    lemma_residue_step(43, 41, 8271814102294, 7778784099959, 5774401272921);
}

proof fn lemma_residue_47()
    ensures
        lucas_lehmer_residue(47, 45) == 96699253829728,
{
    lemma_pow2_values();
    assert(mersenne_number(47) == 0x7fffffffffff);
    assert(lucas_lehmer_residue(47, 0) == 4);
    lemma_residue_step(47, 1, 4, 0, 14);
    lemma_residue_step(47, 2, 14, 0, 194);
    lemma_residue_step(47, 3, 194, 0, 37634);
    lemma_residue_step(47, 4, 37634, 0, 1416317954);
    lemma_residue_step(47, 5, 1416317954, 14253, 25125294270383);
    lemma_residue_step(47, 6, 25125294270383, 4485517110974, 17476507908189);
    lemma_residue_step(47, 7, 17476507908189, 2170198802282, 85079018803505);
    lemma_residue_step(47, 8, 85079018803505, 51432205627344, 47360981023535);
    lemma_residue_step(47, 9, 47360981023535, 15937917819369, 39046148967560);
    lemma_residue_step(47, 10, 39046148967560, 10832946978189, 137653781390795);
    lemma_residue_step(47, 11, 137653781390795, 134637641701721, 131714715314256);
    lemma_residue_step(47, 12, 131714715314256, 123270398193509, 8708539861091);
    lemma_residue_step(47, 13, 8708539861091, 538866135799, 119033228659006);
    lemma_residue_step(47, 14, 119033228659006, 100676157366218, 32988174764748);
    lemma_residue_step(47, 15, 32988174764748, 7732265844918, 117053282325316);
    lemma_residue_step(47, 16, 117053282325316, 97354806194475, 92880590281529);
    lemma_residue_step(47, 17, 92880590281529, 61297129512960, 80340547039919);
    lemma_residue_step(47, 18, 80340547039919, 45862716281941, 100100458276852);
    lemma_residue_step(47, 19, 100100458276852, 71197105080755, 38472609598017);
    lemma_residue_step(47, 20, 38472609598017, 10517039252146, 15134735050545);
    lemma_residue_step(47, 21, 15134735050545, 1627570647501, 51350752209196);
    lemma_residue_step(47, 22, 51350752209196, 18736299640311, 61053486179717);
    lemma_residue_step(47, 23, 61053486179717, 26485680668720, 4288887928647);
    lemma_residue_step(47, 24, 4288887928647, 130701207471, 16913368202590);
    lemma_residue_step(47, 25, 16913368202590, 2032592930990, 57385772824368);
    lemma_residue_step(47, 26, 57385772824368, 23399074128249, 95952494266999);
    lemma_residue_step(47, 27, 95952494266999, 65418825244439, 70215437689446);
    lemma_residue_step(47, 28, 70215437689446, 35031232598616, 2928963359482);
    lemma_residue_step(47, 29, 2928963359482, 60956227522, 125945366598628);
    lemma_residue_step(47, 30, 125945366598628, 112707961134098, 36102331842336);
    lemma_residue_step(47, 31, 36102331842336, 9261060288097, 115030637294175);
    lemma_residue_step(47, 32, 115030637294175, 94019352419423, 114498928614302);
    lemma_residue_step(47, 33, 114498928614302, 93152185725551, 33460688087025);
    lemma_residue_step(47, 34, 33460688087025, 7955361860874, 9645522574825);
    lemma_residue_step(47, 35, 9645522574825, 661061290980, 3514143730163);
    lemma_residue_step(47, 36, 3514143730163, 87746387267, 32497911585258);
    lemma_residue_step(47, 37, 32497911585258, 7504143137305, 76676213752827);
    lemma_residue_step(47, 38, 76676213752827, 41774525211261, 57202940754580);
    lemma_residue_step(47, 39, 57202940754580, 23250211931525, 104935597992723);
    lemma_residue_step(47, 40, 104935597992723, 78241269293431, 121971205997790);
    lemma_residue_step(47, 41, 121971205997790, 105707265820992, 5879013259714);
    lemma_residue_step(47, 42, 5879013259714, 245583442704, 77716517677586);
    lemma_residue_step(47, 43, 77716517677586, 42915766015955, 132222855545109);
    lemma_residue_step(47, 44, 132222855545109, 124223358913176, 48035103733327);
    lemma_residue_step(47, 45, 48035103733327, 16394858382337, 96699253829728);
}

proof fn lemma_residue_53()
    ensures
        lucas_lehmer_residue(53, 51) == 5810550306096509,
{
    lemma_pow2_values();
    assert(mersenne_number(53) == 0x1fffffffffffff);
    assert(lucas_lehmer_residue(53, 0) == 4);
    lemma_residue_step(53, 1, 4, 0, 14);
    lemma_residue_step(53, 2, 14, 0, 194);
    lemma_residue_step(53, 3, 194, 0, 37634);
    lemma_residue_step(53, 4, 37634, 0, 1416317954);
    lemma_residue_step(53, 5, 1416317954, 222, 6358312270246112);
    lemma_residue_step(53, 6, 6358312270246112, 4488424623745576, 1715474889010726);
    lemma_residue_step(53, 7, 1715474889010726, 326722437418865, 1789166790851859);
    lemma_residue_step(53, 8, 1789166790851859, 355395469218937, 5612645876409312);
    lemma_residue_step(53, 9, 5612645876409312, 3497401672045092, 5514630427547170);
    lemma_residue_step(53, 10, 5514630427547170, 3376315755024737, 5545204842114531);
    lemma_residue_step(53, 11, 5545204842114531, 3413857723290108, 3624113428932931);
    lemma_residue_step(53, 12, 3624113428932931, 1458188919142512, 1442394919141367);
    lemma_residue_step(53, 13, 1442394919141367, 230982244749359, 3079751272353918);
    lemma_residue_step(53, 14, 3079751272353918, 1053031872762575, 1205943386738897);
    lemma_residue_step(53, 15, 1205943386738897, 161459673633155, 3546024977620002);
    lemma_residue_step(53, 16, 3546024977620002, 1396026976452906, 1770323371210156);
    lemma_residue_step(53, 17, 1770323371210156, 347948874008007, 4173229072429397);
    lemma_residue_step(53, 18, 4173229072429397, 1933546755036311, 3346170444659406);
    lemma_residue_step(53, 19, 3346170444659406, 1243100805038658, 584639812042756);
    lemma_residue_step(53, 20, 584639812042756, 37947834855044, 2544571322166930);
    lemma_residue_step(53, 21, 2544571322166930, 718852001657039, 6957382028639249);
    lemma_residue_step(53, 22, 6957382028639249, 5374052835231113, 1076822143631016);
    lemma_residue_step(53, 23, 1076822143631016, 128735458850181, 6634818928722883);
    lemma_residue_step(53, 24, 6634818928722883, 4887293038817682, 6298245626828825);
    lemma_residue_step(53, 25, 6298245626828825, 4404021367129076, 5072866205726307);
    lemma_residue_step(53, 26, 5072866205726307, 2857044772008878, 8029404749340149);
    lemma_residue_step(53, 27, 8029404749340149, 7157756679446308, 5162737072130971);
    lemma_residue_step(53, 28, 5162737072130971, 2959172249012484, 2732676031871195);
    lemma_residue_step(53, 29, 2732676031871195, 829061074809989, 2443980336168924);
    lemma_residue_step(53, 30, 2443980336168924, 663140640575528, 7585928650249526);
    lemma_residue_step(53, 31, 7585928650249526, 6388924221520553, 4289605865136651);
    lemma_residue_step(53, 32, 4289605865136651, 2042890132415959, 5762531283620430);
    lemma_residue_step(53, 33, 5762531283620430, 3686691706883862, 6811593785597656);
    lemma_residue_step(53, 34, 6811593785597656, 5151191684315282, 7807141019569872);
    lemma_residue_step(53, 35, 7807141019569872, 6766970417287966, 260029898882076);
    lemma_residue_step(53, 36, 260029898882076, 7506833855932, 7519194085161162);
    lemma_residue_step(53, 37, 7519194085161162, 6277009988489302, 6469518128811960);
    lemma_residue_step(53, 38, 6469518128811960, 4646801257005185, 1746719520003263);
    lemma_residue_step(53, 39, 1746719520003263, 338732273514933, 3450043444928564);
    lemma_residue_step(53, 40, 3450043444928564, 1321476236426039, 5313050590037445);
    lemma_residue_step(53, 41, 5313050590037445, 3133993794734695, 7330814715745278);
    lemma_residue_step(53, 42, 7330814715745278, 5966432281188929, 8939557547608643);
    lemma_residue_step(53, 43, 8939557547608643, 8872423811979353, 4659662833542624);
    lemma_residue_step(53, 44, 4659662833542624, 2410567048449605, 3159089633546819);
    lemma_residue_step(53, 45, 3159089633546819, 1107985626889515, 5931277566409394);
    lemma_residue_step(53, 46, 5931277566409394, 3905770548072878, 4568457529505136);
    lemma_residue_step(53, 47, 4568457529505136, 2317124736405348, 4843228923158626);
    lemma_residue_step(53, 48, 4843228923158626, 2604235316519017, 5260668697282027);
    lemma_residue_step(53, 49, 5260668697282027, 3072501713337392, 3840524021793255);
    lemma_residue_step(53, 50, 3840524021793255, 1637537301532159, 2201776961465454);
    lemma_residue_step(53, 51, 2201776961465454, 538216336836155, 5810550306096509);
}

proof fn lemma_residue_59()
    ensures
        lucas_lehmer_residue(59, 57) == 450529175803834166,
{
    lemma_pow2_values();
    assert(mersenne_number(59) == 0x7ffffffffffffff);
    assert(lucas_lehmer_residue(59, 0) == 4);
    lemma_residue_step(59, 1, 4, 0, 14);
    lemma_residue_step(59, 2, 14, 0, 194);
    lemma_residue_step(59, 3, 194, 0, 37634);
    lemma_residue_step(59, 4, 37634, 0, 1416317954);
    lemma_residue_step(59, 5, 1416317954, 3, 276574289912475653);
    lemma_residue_step(59, 6, 276574289912475653, 132694788907896744, 407428811417350079);
    lemma_residue_step(59, 7, 407428811417350079, 287961037606911479, 357033802182798966);
    lemma_residue_step(59, 8, 357033802182798966, 221130641404030561, 376313525297482947);
    lemma_residue_step(59, 9, 376313525297482947, 245657434189519814, 127815204936333389);
    lemma_residue_step(59, 10, 127815204936333389, 28339703176042020, 339794242789301579);
    lemma_residue_step(59, 11, 339794242789301579, 200291393596873556, 112486259952283467);
    lemma_residue_step(59, 12, 112486259952283467, 21949731404077666, 77500224084998745);
    lemma_residue_step(59, 13, 77500224084998745, 10419243130126535, 257964438650647478);
    lemma_residue_step(59, 14, 257964438650647478, 115438304069167528, 461222712094830346);
    lemma_residue_step(59, 15, 461222712094830346, 369021462956668008, 358853945633775818);
    lemma_residue_step(59, 16, 358853945633775818, 223391018004894197, 340894883161764183);
    lemma_residue_step(59, 17, 340894883161764183, 201591037900712792, 420795809767511783);
    lemma_residue_step(59, 18, 420795809767511783, 307165948089896329, 403632489430159864);
    lemma_residue_step(59, 19, 403632489430159864, 282619737549512560, 500137444491001774);
    lemma_residue_step(59, 20, 500137444491001774, 433919329950026787, 512429566616200805);
    lemma_residue_step(59, 21, 512429566616200805, 455510734587278065, 92296395761735368);
    lemma_residue_step(59, 22, 92296395761735368, 14777458199136954, 251429207888856824);
    lemma_residue_step(59, 23, 251429207888856824, 109663400894192239, 557685134365649581);
    lemma_residue_step(59, 24, 557685134365649581, 539521047789788245, 24025891795965244);
    lemma_residue_step(59, 25, 24025891795965244, 1001357810197622, 92588887029631620);
    lemma_residue_step(59, 26, 92588887029631620, 14871267414357455, 511411940043278813);
    lemma_residue_step(59, 27, 511411940043278813, 453703346452918536, 134714800134633935);
    lemma_residue_step(59, 28, 134714800134633935, 31481895866801389, 112742003466760780);
    lemma_residue_step(59, 29, 112742003466760780, 22049652634475828, 311756257597236162);
    lemma_residue_step(59, 30, 311756257597236162, 168601181889095394, 230935441477371364);
    lemma_residue_step(59, 31, 230935441477371364, 92514846704216277, 163782402797722595);
    lemma_residue_step(59, 32, 163782402797722595, 46533394266668349, 364430952247421060);
    lemma_residue_step(59, 33, 364430952247421060, 230388484255484598, 197573989331570372);
    lemma_residue_step(59, 34, 197573989331570372, 67715765738453828, 399051281107960146);
    lemma_residue_step(59, 35, 399051281107960146, 276240705577274603, 234670981125540653);
    lemma_residue_step(59, 36, 234670981125540653, 95532036070752643, 110976559902140266);
    lemma_residue_step(59, 37, 110976559902140266, 21364501917089465, 411027297177286299);
    lemma_residue_step(59, 38, 411027297177286299, 293070149788689965, 474387735470909444);
    lemma_residue_step(59, 39, 474387735470909444, 390388630389817891, 173347638666183217);
    lemma_residue_step(59, 40, 173347638666183217, 52127406264988772, 572317887396381123);
    lemma_residue_step(59, 41, 572317887396381123, 568204796120187731, 318867052236103130);
    lemma_residue_step(59, 42, 318867052236103130, 176380085886964012, 66251075631247054);
    lemma_residue_step(59, 43, 66251075631247054, 7614056993054287, 450745852641840145);
    lemma_residue_step(59, 44, 450745852641840145, 352446932183995057, 355392681947917264);
    lemma_residue_step(59, 45, 355392681947917264, 219102441714284567, 26859842359820565);
    lemma_residue_step(59, 46, 26859842359820565, 1251518214746857, 481353328823688864);
    lemma_residue_step(59, 47, 481353328823688864, 401937211239125515, 135823794085639689);
    lemma_residue_step(59, 48, 135823794085639689, 32002357430411817, 379991990971870840);
    lemma_residue_step(59, 49, 379991990971870840, 250483511020996256, 100738003432840926);
    lemma_residue_step(59, 50, 100738003432840926, 17604225951350690, 393959224500881444);
    lemma_residue_step(59, 51, 393959224500881444, 269235797839092854, 19130306266063236);
    lemma_residue_step(59, 52, 19130306266063236, 634854352826345, 425266939645426679);
    lemma_residue_step(59, 53, 425266939645426679, 313728157958261980, 409515149533844779);
    lemma_residue_step(59, 54, 409515149533844779, 290917737291950060, 301785845830499619);
    lemma_residue_step(59, 55, 301785845830499619, 157989414508643574, 46607054295922621);
    lemma_residue_step(59, 56, 46607054295922621, 3768196709773087, 374344564583215270);
    lemma_residue_step(59, 57, 374344564583215270, 243093484635423636, 450529175803834166);
}

proof fn lemma_residue_61()
    ensures
        lucas_lehmer_residue(61, 59) == 0,
{
    lemma_pow2_values();
    assert(mersenne_number(61) == 0x1fffffffffffffff);
    assert(lucas_lehmer_residue(61, 0) == 4);
    lemma_residue_step(61, 1, 4, 0, 14);
    lemma_residue_step(61, 2, 14, 0, 194);
    lemma_residue_step(61, 3, 194, 0, 37634);
    lemma_residue_step(61, 4, 37634, 0, 1416317954);
    lemma_residue_step(61, 5, 1416317954, 0, 2005956546822746114);
    lemma_residue_step(61, 6, 2005956546822746114, 1745071824778390509, 360360107812989935);
    lemma_residue_step(61, 7, 360360107812989935, 56317540606232578, 21902747593568545);
    lemma_residue_step(61, 8, 21902747593568545, 208049876002253, 1740602589084945420);
    lemma_residue_step(61, 9, 1740602589084945420, 1313921789568128494, 1337198076820436604);
    lemma_residue_step(61, 10, 1337198076820436604, 775464196611557896, 2247350346121565718);
    lemma_residue_step(61, 11, 2247350346121565718, 2190341475127137985, 83171871456026787);
    lemma_residue_step(61, 12, 83171871456026787, 3000013519505290, 582723273476042577);
    lemma_residue_step(61, 13, 582723273476042577, 147263457266515665, 389768199659558512);
    lemma_residue_step(61, 14, 389768199659558512, 65884472125298255, 1660083560587298637);
    lemma_residue_step(61, 15, 1660083560587298637, 1195171317873879740, 1309051187682605027);
    lemma_residue_step(61, 16, 1309051187682605027, 743162047514063684, 2060268568186095243);
    lemma_residue_step(61, 17, 2060268568186095243, 1840848035228145444, 1727984905136219803);
    lemma_residue_step(61, 18, 1727984905136219803, 1294941511823413726, 1123503237312787381);
    lemma_residue_step(61, 19, 1123503237312787381, 547417807373951001, 720442006828744208);
    lemma_residue_step(61, 20, 720442006828744208, 225096280678892741, 1762244237164037571);
    lemma_residue_step(61, 21, 1762244237164037571, 1346797999260520390, 675035788244419149);
    lemma_residue_step(61, 22, 675035788244419149, 197616799404809252, 403242138936649547);
    lemma_residue_step(61, 23, 403242138936649547, 70518340565454703, 23218429299703654);
    lemma_residue_step(61, 24, 23218429299703654, 233795387192977, 2303338777166369587);
    lemma_residue_step(61, 25, 2303338777166369587, 2300837264809033564, 1807999318695779203);
    lemma_residue_step(61, 26, 1807999318695779203, 1417642711729582497, 2117213806962939560);
    lemma_residue_step(61, 27, 2117213806962939560, 1944015393278267700, 608422148964310898);
    lemma_residue_step(61, 28, 608422148964310898, 160538904804530830, 1994472770237557072);
    lemma_residue_step(61, 29, 1994472770237557072, 1725148509817921139, 505071132657882993);
    lemma_residue_step(61, 30, 505071132657882993, 110630623171222037, 1458686264893839860);
    lemma_residue_step(61, 31, 1458686264893839860, 922771242833015834, 828943682511799464);
    lemma_residue_step(61, 32, 828943682511799464, 298002780774977554, 1873899805900111440);
    lemma_residue_step(61, 33, 1873899805900111440, 1522870580746916364, 2100166639529159434);
    lemma_residue_step(61, 34, 2100166639529159434, 1912836171485619462, 1690337638073925992);
    lemma_residue_step(61, 35, 1690337638073925992, 1239130903219501895, 1850462809098646917);
    lemma_residue_step(61, 36, 1850462809098646917, 1485015499396436383, 655691867230185654);
    lemma_residue_step(61, 37, 655691867230185654, 186453207366626705, 1312985360173846259);
    lemma_residue_step(61, 38, 1312985360173846259, 747635701625114218, 555029261697599761);
    lemma_residue_step(61, 39, 555029261697599761, 133598636207948995, 361044435199227874);
    lemma_residue_step(61, 40, 361044435199227874, 56531638826869061, 526190922173809863);
    lemma_residue_step(61, 41, 526190922173809863, 120076208775610043, 1323436870952128874);
    lemma_residue_step(61, 42, 1323436870952128874, 759585602487668303, 891169157258972721);
    lemma_residue_step(61, 43, 891169157258972721, 344421742363322710, 185842366834216629);
    lemma_residue_step(61, 44, 185842366834216629, 14978203274264102, 222804261526276637);
    lemma_residue_step(61, 45, 222804261526276637, 21528672488070903, 991039614021822014);
    lemma_residue_step(61, 46, 991039614021822014, 425943792632892270, 481713520561357424);
    lemma_residue_step(61, 47, 481713520561357424, 100634741812170043, 1344980214107405881);
    lemma_residue_step(61, 48, 1344980214107405881, 784516451949290943, 1970899971015200366);
    lemma_residue_step(61, 49, 1970899971015200366, 1684610218573525891, 1072613472477948613);
    lemma_residue_step(61, 50, 1072613472477948613, 498949692907987776, 1908660977355480791);
    lemma_residue_step(61, 51, 1908660977355480791, 1579893649274006338, 863790468803724241);
    lemma_residue_step(61, 52, 863790468803724241, 323584030228750820, 2198539655050736259);
    lemma_residue_step(61, 53, 2198539655050736259, 2096229706669791226, 1534797684548241153);
    lemma_residue_step(61, 54, 1534797684548241153, 1021580360450435512, 257154353612781495);
    lemma_residue_step(61, 55, 257154353612781495, 28678605316047785, 2098355710732986488);
    lemma_residue_step(61, 56, 2098355710732986488, 1909538798249417150, 1394647967359914492);
    lemma_residue_step(61, 57, 1394647967359914492, 843527918027867917, 1080792493261747995);
    lemma_residue_step(61, 58, 1080792493261747995, 506588006565667625, 2147483648);
    lemma_residue_step(61, 59, 2147483648, 2, 0);
}

/// Up to 63, the exponents that pass the Lucas-Lehmer test are 2, 3, 5,
/// 7, 13, 17, 19, 31 and 61, and no others.
pub proof fn lemma_passing_exponents(p: nat)
    requires
        p <= 63,
    ensures
        passes_lucas_lehmer(p) == is_passing_exponent(p),
{
    if p == 0 {
    } else if p == 1 {
    } else if p == 2 {
    } else if p == 3 {
        lemma_small_prime(3);
        lemma_residue_3();
    } else if p == 4 {
        assert(4nat % 2 == 0);
    } else if p == 5 {
        lemma_small_prime(5);
        lemma_residue_5();
    } else if p == 6 {
        assert(6nat % 2 == 0);
    } else if p == 7 {
        lemma_small_prime(7);
        lemma_residue_7();
    } else if p == 8 {
        assert(8nat % 2 == 0);
    } else if p == 9 {
        assert(9nat % 3 == 0);
    } else if p == 10 {
        assert(10nat % 2 == 0);
    } else if p == 11 {
        lemma_small_prime(11);
        lemma_residue_11();
    } else if p == 12 {
        assert(12nat % 2 == 0);
    } else if p == 13 {
        lemma_small_prime(13);
        lemma_residue_13();
    } else if p == 14 {
        assert(14nat % 2 == 0);
    } else if p == 15 {
        assert(15nat % 3 == 0);
    } else if p == 16 {
        assert(16nat % 2 == 0);
    } else if p == 17 {
        lemma_small_prime(17);
        lemma_residue_17();
    } else if p == 18 {
        assert(18nat % 2 == 0);
    } else if p == 19 {
        lemma_small_prime(19);
        lemma_residue_19();
    } else if p == 20 {
        assert(20nat % 2 == 0);
    } else if p == 21 {
        assert(21nat % 3 == 0);
    } else if p == 22 {
        assert(22nat % 2 == 0);
    } else if p == 23 {
        lemma_small_prime(23);
        lemma_residue_23();
    } else if p == 24 {
        assert(24nat % 2 == 0);
    } else if p == 25 {
        assert(25nat % 5 == 0);
    } else if p == 26 {
        assert(26nat % 2 == 0);
    } else if p == 27 {
        assert(27nat % 3 == 0);
    } else if p == 28 {
        assert(28nat % 2 == 0);
    } else if p == 29 {
        lemma_small_prime(29);
        lemma_residue_29();
    } else if p == 30 {
        assert(30nat % 2 == 0);
    } else if p == 31 {
        lemma_small_prime(31);
        lemma_residue_31();
    } else if p == 32 {
        assert(32nat % 2 == 0);
    } else if p == 33 {
        assert(33nat % 3 == 0);
    } else if p == 34 {
        assert(34nat % 2 == 0);
    } else if p == 35 {
        assert(35nat % 5 == 0);
    } else if p == 36 {
        assert(36nat % 2 == 0);
    } else if p == 37 {
        lemma_small_prime(37);
        lemma_residue_37();
    } else if p == 38 {
        assert(38nat % 2 == 0);
    } else if p == 39 {
        assert(39nat % 3 == 0);
    } else if p == 40 {
        assert(40nat % 2 == 0);
    } else if p == 41 {
        lemma_small_prime(41);
        lemma_residue_41();
    } else if p == 42 {
        assert(42nat % 2 == 0);
    } else if p == 43 {
        lemma_small_prime(43);
        lemma_residue_43();
    } else if p == 44 {
        assert(44nat % 2 == 0);
    } else if p == 45 {
        assert(45nat % 3 == 0);
    } else if p == 46 {
        assert(46nat % 2 == 0);
    } else if p == 47 {
        lemma_small_prime(47);
        lemma_residue_47();
    } else if p == 48 {
        assert(48nat % 2 == 0);
    } else if p == 49 {
        assert(49nat % 7 == 0);
    } else if p == 50 {
        assert(50nat % 2 == 0);
    } else if p == 51 {
        assert(51nat % 3 == 0);
    } else if p == 52 {
        assert(52nat % 2 == 0);
    } else if p == 53 {
        lemma_small_prime(53);
        lemma_residue_53();
    } else if p == 54 {
        assert(54nat % 2 == 0);
    } else if p == 55 {
        assert(55nat % 5 == 0);
    } else if p == 56 {
        assert(56nat % 2 == 0);
    } else if p == 57 {
        assert(57nat % 3 == 0);
    } else if p == 58 {
        assert(58nat % 2 == 0);
    } else if p == 59 {
        lemma_small_prime(59);
        lemma_residue_59();
    } else if p == 60 {
        assert(60nat % 2 == 0);
    } else if p == 61 {
        lemma_small_prime(61);
        lemma_residue_61();
    } else if p == 62 {
        assert(62nat % 2 == 0);
    } else {
        assert(63nat % 3 == 0);
    }
}

/// Below 61, the smallest passing exponent above `after` is the one that
/// the table gives, and it is the only one with that property.
pub proof fn lemma_next_passing_exponent(after: nat, next: nat)
    requires
        after < 61,
    ensures
        is_next_exponent(after, next) <==> next == next_passing_exponent(after),
{
    let expected = next_passing_exponent(after);
    assert forall|q: nat| q <= 63 implies passes_lucas_lehmer(q) == is_passing_exponent(q) by {
        lemma_passing_exponents(q);
    }
    assert(passes_lucas_lehmer(expected));
    if is_next_exponent(after, next) {
        if next > expected {
            assert(!passes_lucas_lehmer(expected));
        }
        assert(next <= 63);
    }
}

} // verus!
