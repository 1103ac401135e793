use vstd::prelude::*;

verus! {

/// Fixed-point scale of a direction component: `UNIT` stands for 1.
pub const UNIT: i64 = 1000;

/// Number of vertices of an asteroid outline: one per 0.25 rad step in [0, 2π).
pub const RING_STEPS: usize = 26;

/// Sine of `d` whole degrees, 0 <= d <= 90, in units of 1/1000, rounded to nearest.
pub open spec fn quarter_sine(d: int) -> int {
    if d == 0 {
        0
    } else if d == 1 {
        17
    } else if d == 2 {
        35
    } else if d == 3 {
        52
    } else if d == 4 {
        70
    } else if d == 5 {
        87
    } else if d == 6 {
        105
    } else if d == 7 {
        122
    } else if d == 8 {
        139
    } else if d == 9 {
        156
    } else if d == 10 {
        174
    } else if d == 11 {
        191
    } else if d == 12 {
        208
    } else if d == 13 {
        225
    } else if d == 14 {
        242
    } else if d == 15 {
        259
    } else if d == 16 {
        276
    } else if d == 17 {
        292
    } else if d == 18 {
        309
    } else if d == 19 {
        326
    } else if d == 20 {
        342
    } else if d == 21 {
        358
    } else if d == 22 {
        375
    } else if d == 23 {
        391
    } else if d == 24 {
        407
    } else if d == 25 {
        423
    } else if d == 26 {
        438
    } else if d == 27 {
        454
    } else if d == 28 {
        469
    } else if d == 29 {
        485
    } else if d == 30 {
        500
    } else if d == 31 {
        515
    } else if d == 32 {
        530
    } else if d == 33 {
        545
    } else if d == 34 {
        559
    } else if d == 35 {
        574
    } else if d == 36 {
        588
    } else if d == 37 {
        602
    } else if d == 38 {
        616
    } else if d == 39 {
        629
    } else if d == 40 {
        643
    } else if d == 41 {
        656
    } else if d == 42 {
        669
    } else if d == 43 {
        682
    } else if d == 44 {
        695
    } else if d == 45 {
        707
    } else if d == 46 {
        719
    } else if d == 47 {
        731
    } else if d == 48 {
        743
    } else if d == 49 {
        755
    } else if d == 50 {
        766
    } else if d == 51 {
        777
    } else if d == 52 {
        788
    } else if d == 53 {
        799
    } else if d == 54 {
        809
    } else if d == 55 {
        819
    } else if d == 56 {
        829
    } else if d == 57 {
        839
    } else if d == 58 {
        848
    } else if d == 59 {
        857
    } else if d == 60 {
        866
    } else if d == 61 {
        875
    } else if d == 62 {
        883
    } else if d == 63 {
        891
    } else if d == 64 {
        899
    } else if d == 65 {
        906
    } else if d == 66 {
        914
    } else if d == 67 {
        921
    } else if d == 68 {
        927
    } else if d == 69 {
        934
    } else if d == 70 {
        940
    } else if d == 71 {
        946
    } else if d == 72 {
        951
    } else if d == 73 {
        956
    } else if d == 74 {
        961
    } else if d == 75 {
        966
    } else if d == 76 {
        970
    } else if d == 77 {
        974
    } else if d == 78 {
        978
    } else if d == 79 {
        982
    } else if d == 80 {
        985
    } else if d == 81 {
        988
    } else if d == 82 {
        990
    } else if d == 83 {
        993
    } else if d == 84 {
        995
    } else if d == 85 {
        996
    } else if d == 86 {
        998
    } else if d == 87 {
        999
    } else if d == 88 {
        999
    } else if d == 89 {
        1000
    } else {
        1000
    }
}

/// Sine of a heading in whole degrees, 0 <= d < 360, in units of 1/1000.
pub open spec fn sine(d: int) -> int {
    if d <= 90 {
        quarter_sine(d)
    } else if d <= 180 {
        quarter_sine(180 - d)
    } else if d <= 270 {
        -quarter_sine(d - 180)
    } else {
        -quarter_sine(360 - d)
    }
}

/// Cosine of a heading in whole degrees, 0 <= d < 360, in units of 1/1000.
pub open spec fn cosine(d: int) -> int {
    sine((d + 90) % 360)
}

/// Sine of `0.25 * k` radians, 0 <= k < 26, in units of 1/1000.
pub open spec fn ring_sine(k: int) -> int {
    if k == 0 {
        0
    } else if k == 1 {
        247
    } else if k == 2 {
        479
    } else if k == 3 {
        682
    } else if k == 4 {
        841
    } else if k == 5 {
        949
    } else if k == 6 {
        997
    } else if k == 7 {
        984
    } else if k == 8 {
        909
    } else if k == 9 {
        778
    } else if k == 10 {
        598
    } else if k == 11 {
        382
    } else if k == 12 {
        141
    } else if k == 13 {
        -108
    } else if k == 14 {
        -351
    } else if k == 15 {
        -572
    } else if k == 16 {
        -757
    } else if k == 17 {
        -895
    } else if k == 18 {
        -978
    } else if k == 19 {
        -999
    } else if k == 20 {
        -959
    } else if k == 21 {
        -859
    } else if k == 22 {
        -706
    } else if k == 23 {
        -508
    } else if k == 24 {
        -279
    } else {
        -33
    }
}

/// Cosine of `0.25 * k` radians, 0 <= k < 26, in units of 1/1000.
pub open spec fn ring_cosine(k: int) -> int {
    if k == 0 {
        1000
    } else if k == 1 {
        969
    } else if k == 2 {
        878
    } else if k == 3 {
        732
    } else if k == 4 {
        540
    } else if k == 5 {
        315
    } else if k == 6 {
        71
    } else if k == 7 {
        -178
    } else if k == 8 {
        -416
    } else if k == 9 {
        -628
    } else if k == 10 {
        -801
    } else if k == 11 {
        -924
    } else if k == 12 {
        -990
    } else if k == 13 {
        -994
    } else if k == 14 {
        -936
    } else if k == 15 {
        -821
    } else if k == 16 {
        -654
    } else if k == 17 {
        -446
    } else if k == 18 {
        -211
    } else if k == 19 {
        38
    } else if k == 20 {
        284
    } else if k == 21 {
        512
    } else if k == 22 {
        709
    } else if k == 23 {
        861
    } else if k == 24 {
        960
    } else {
        999
    }
}

fn quarter_sine_of(d: i64) -> (r: i64)
    requires
        0 <= d <= 90,
    ensures
        r == quarter_sine(d as int),
        0 <= r <= UNIT,
{
    if d == 0 {
        0
    } else if d == 1 {
        17
    } else if d == 2 {
        35
    } else if d == 3 {
        52
    } else if d == 4 {
        70
    } else if d == 5 {
        87
    } else if d == 6 {
        105
    } else if d == 7 {
        122
    } else if d == 8 {
        139
    } else if d == 9 {
        156
    } else if d == 10 {
        174
    } else if d == 11 {
        191
    } else if d == 12 {
        208
    } else if d == 13 {
        225
    } else if d == 14 {
        242
    } else if d == 15 {
        259
    } else if d == 16 {
        276
    } else if d == 17 {
        292
    } else if d == 18 {
        309
    } else if d == 19 {
        326
    } else if d == 20 {
        342
    } else if d == 21 {
        358
    } else if d == 22 {
        375
    } else if d == 23 {
        391
    } else if d == 24 {
        407
    } else if d == 25 {
        423
    } else if d == 26 {
        438
    } else if d == 27 {
        454
    } else if d == 28 {
        469
    } else if d == 29 {
        485
    } else if d == 30 {
        500
    } else if d == 31 {
        515
    } else if d == 32 {
        530
    } else if d == 33 {
        545
    } else if d == 34 {
        559
    } else if d == 35 {
        574
    } else if d == 36 {
        588
    } else if d == 37 {
        602
    } else if d == 38 {
        616
    } else if d == 39 {
        629
    } else if d == 40 {
        643
    } else if d == 41 {
        656
    } else if d == 42 {
        669
    } else if d == 43 {
        682
    } else if d == 44 {
        695
    } else if d == 45 {
        707
    } else if d == 46 {
        719
    } else if d == 47 {
        731
    } else if d == 48 {
        743
    } else if d == 49 {
        755
    } else if d == 50 {
        766
    } else if d == 51 {
        777
    } else if d == 52 {
        788
    } else if d == 53 {
        799
    } else if d == 54 {
        809
    } else if d == 55 {
        819
    } else if d == 56 {
        829
    } else if d == 57 {
        839
    } else if d == 58 {
        848
    } else if d == 59 {
        857
    } else if d == 60 {
        866
    } else if d == 61 {
        875
    } else if d == 62 {
        883
    } else if d == 63 {
        891
    } else if d == 64 {
        899
    } else if d == 65 {
        906
    } else if d == 66 {
        914
    } else if d == 67 {
        921
    } else if d == 68 {
        927
    } else if d == 69 {
        934
    } else if d == 70 {
        940
    } else if d == 71 {
        946
    } else if d == 72 {
        951
    } else if d == 73 {
        956
    } else if d == 74 {
        961
    } else if d == 75 {
        966
    } else if d == 76 {
        970
    } else if d == 77 {
        974
    } else if d == 78 {
        978
    } else if d == 79 {
        982
    } else if d == 80 {
        985
    } else if d == 81 {
        988
    } else if d == 82 {
        990
    } else if d == 83 {
        993
    } else if d == 84 {
        995
    } else if d == 85 {
        996
    } else if d == 86 {
        998
    } else if d == 87 {
        999
    } else if d == 88 {
        999
    } else if d == 89 {
        1000
    } else {
        1000
    }
}

/// Sine of a heading in whole degrees.
pub fn sine_of(d: i64) -> (r: i64)
    requires
        0 <= d < 360,
    ensures
        r == sine(d as int),
        -UNIT <= r <= UNIT,
{
    if d <= 90 {
        quarter_sine_of(d)
    } else if d <= 180 {
        quarter_sine_of(180 - d)
    } else if d <= 270 {
        -quarter_sine_of(d - 180)
    } else {
        -quarter_sine_of(360 - d)
    }
}

/// Cosine of a heading in whole degrees.
pub fn cosine_of(d: i64) -> (r: i64)
    requires
        0 <= d < 360,
    ensures
        r == cosine(d as int),
        -UNIT <= r <= UNIT,
{
    sine_of((d + 90) % 360)
}

/// Direction of the `k`-th outline vertex, as (sine, cosine) of `0.25 * k` radians.
pub fn ring_direction(k: usize) -> (r: (i64, i64))
    requires
        k < RING_STEPS,
    ensures
        r.0 == ring_sine(k as int),
        r.1 == ring_cosine(k as int),
        -UNIT <= r.0 <= UNIT,
        -UNIT <= r.1 <= UNIT,
{
    if k == 0 {
        (0, 1000)
    } else if k == 1 {
        (247, 969)
    } else if k == 2 {
        (479, 878)
    } else if k == 3 {
        (682, 732)
    } else if k == 4 {
        (841, 540)
    } else if k == 5 {
        (949, 315)
    } else if k == 6 {
        (997, 71)
    } else if k == 7 {
        (984, -178)
    } else if k == 8 {
        (909, -416)
    } else if k == 9 {
        (778, -628)
    } else if k == 10 {
        (598, -801)
    } else if k == 11 {
        (382, -924)
    } else if k == 12 {
        (141, -990)
    } else if k == 13 {
        (-108, -994)
    } else if k == 14 {
        (-351, -936)
    } else if k == 15 {
        (-572, -821)
    } else if k == 16 {
        (-757, -654)
    } else if k == 17 {
        (-895, -446)
    } else if k == 18 {
        (-978, -211)
    } else if k == 19 {
        (-999, 38)
    } else if k == 20 {
        (-959, 284)
    } else if k == 21 {
        (-859, 512)
    } else if k == 22 {
        (-706, 709)
    } else if k == 23 {
        (-508, 861)
    } else if k == 24 {
        (-279, 960)
    } else {
        (-33, 999)
    }
}

} // verus!
