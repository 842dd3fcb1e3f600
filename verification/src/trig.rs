use vstd::prelude::*;

verus! {

/// Fixed-point scale of the trigonometric table: table entries hold
/// `cos` and `sin` values multiplied by this factor (2^20) and truncated
/// toward zero, so that every entry `(c, s)` satisfies `c*c + s*s <= TRIG_SCALE^2`.
pub const TRIG_SCALE: i64 = 1048576;

/// The conditions a pair of entry vectors must meet to form a [`TrigTable`]:
/// one entry per integer degree 0..179, each entry bounded by the fixed-point
/// scale, each pair lying on or inside the circle of radius [`TRIG_SCALE`],
/// and a strictly positive sine everywhere but at zero degrees (so that a
/// line at any other angle can be solved for `y`).
pub open spec fn trig_entries_ok(cos_q: Seq<i64>, sin_q: Seq<i64>) -> bool {
    &&& cos_q.len() == 180
    &&& sin_q.len() == 180
    &&& forall|t: int| 0 <= t < 180 ==> -TRIG_SCALE <= #[trigger] cos_q[t] <= TRIG_SCALE
    &&& forall|t: int| 0 <= t < 180 ==> -TRIG_SCALE <= #[trigger] sin_q[t] <= TRIG_SCALE
    &&& forall|t: int|
        0 <= t < 180 ==> (#[trigger] cos_q[t]) * cos_q[t] + sin_q[t] * sin_q[t] <= TRIG_SCALE
            * TRIG_SCALE
    &&& forall|t: int| 1 <= t < 180 ==> #[trigger] sin_q[t] >= 1
}

/// A table of fixed-point cosine and sine values, one per integer degree
/// in `0..180`, intended to hold `floor_toward_zero(cos(t * pi / 180) * TRIG_SCALE)`
/// and the same for sine.  The well-formedness invariant records only the
/// bounds that the geometry needs, so any table within those bounds is
/// accepted; [`TrigTable::standard`] builds the intended one.
pub struct TrigTable {
    pub cos_q: Vec<i64>,
    pub sin_q: Vec<i64>,
}

impl TrigTable {
    /// The fixed-point cosine of `theta` degrees.
    pub open spec fn cos(self, theta: int) -> int {
        self.cos_q@[theta] as int
    }

    /// The fixed-point sine of `theta` degrees.
    pub open spec fn sin(self, theta: int) -> int {
        self.sin_q@[theta] as int
    }

    pub open spec fn wf(self) -> bool {
        trig_entries_ok(self.cos_q@, self.sin_q@)
    }

    /// Builds a table from raw fixed-point entries, accepting exactly those
    /// that satisfy [`trig_entries_ok`].
    pub fn new(cos_q: Vec<i64>, sin_q: Vec<i64>) -> (r: Option<TrigTable>)
        ensures
            r is Some <==> trig_entries_ok(cos_q@, sin_q@),
            r matches Some(t) ==> t.wf() && t.cos_q@ == cos_q@ && t.sin_q@ == sin_q@,
    {
        if cos_q.len() != 180 || sin_q.len() != 180 {
            return None;
        }
        let mut t: usize = 0;
        while t < 180
            invariant
                t <= 180,
                cos_q@.len() == 180,
                sin_q@.len() == 180,
                forall|i: int| 0 <= i < t ==> -TRIG_SCALE <= #[trigger] cos_q@[i] <= TRIG_SCALE,
                forall|i: int| 0 <= i < t ==> -TRIG_SCALE <= #[trigger] sin_q@[i] <= TRIG_SCALE,
                forall|i: int|
                    0 <= i < t ==> (#[trigger] cos_q@[i]) * cos_q@[i] + sin_q@[i] * sin_q@[i]
                        <= TRIG_SCALE * TRIG_SCALE,
                forall|i: int| 1 <= i < t ==> #[trigger] sin_q@[i] >= 1,
            decreases 180 - t,
        {
            let c = cos_q[t];
            let s = sin_q[t];
            if c < -TRIG_SCALE || c > TRIG_SCALE || s < -TRIG_SCALE || s > TRIG_SCALE {
                return None;
            }
            proof {
                assert(0 <= c * c <= TRIG_SCALE * TRIG_SCALE && 0 <= s * s <= TRIG_SCALE
                    * TRIG_SCALE)
                    by (nonlinear_arith)
                    requires
                        -TRIG_SCALE <= c <= TRIG_SCALE,
                        -TRIG_SCALE <= s <= TRIG_SCALE,
                ;
            }
            if c * c + s * s > TRIG_SCALE * TRIG_SCALE {
                return None;
            }
            if t >= 1 && s < 1 {
                return None;
            }
            t += 1;
        }
        Some(TrigTable { cos_q, sin_q })
    }

    /// The intended table: cosine and sine of each integer degree, scaled
    /// by [`TRIG_SCALE`] and truncated toward zero.  The entries are exactly
    /// the ones [`standard_cos`] and [`standard_sin`] state; they meet every
    /// table bound ([`lemma_standard_entries_ok`]), so the result is always
    /// `Some` of a well-formed table.
    pub fn standard() -> (r: Option<TrigTable>)
        ensures
            r is Some,
            r matches Some(t) ==> t.wf() && t.cos_q@ == standard_cos() && t.sin_q@
                == standard_sin(),
    {
        let mut cos_q: Vec<i64> = Vec::new();
        let mut sin_q: Vec<i64> = Vec::new();
        let mut t: usize = 0;
        while t < 180
            invariant
                t <= 180,
                cos_q@.len() == t,
                sin_q@.len() == t,
                forall|i: int| 0 <= i < t ==> #[trigger] cos_q@[i] == standard_cos_at(i),
                forall|i: int| 0 <= i < t ==> #[trigger] sin_q@[i] == standard_sin_at(i),
            decreases 180 - t,
        {
            cos_q.push(standard_cos_entry(t));
            sin_q.push(standard_sin_entry(t));
            t += 1;
        }
        proof {
            lemma_standard_entries_ok();
            assert(cos_q@ =~= standard_cos());
            assert(sin_q@ =~= standard_sin());
        }
        TrigTable::new(cos_q, sin_q)
    }

    /// Reads the fixed-point cosine of `theta` degrees.
    pub fn cos_at(&self, theta: usize) -> (r: i64)
        requires
            self.wf(),
            theta < 180,
        ensures
            r == self.cos(theta as int),
    {
        self.cos_q[theta]
    }

    /// Reads the fixed-point sine of `theta` degrees.
    pub fn sin_at(&self, theta: usize) -> (r: i64)
        requires
            self.wf(),
            theta < 180,
        ensures
            r == self.sin(theta as int),
    {
        self.sin_q[theta]
    }
}

/// The intended fixed-point cosine of `t` degrees:
/// `cos(t * pi / 180) * TRIG_SCALE`, truncated toward zero.
pub open spec fn standard_cos_at(t: int) -> i64 {
    if t == 0 {
        1048576
    } else if t == 1 {
        1048416
    } else if t == 2 {
        1047937
    } else if t == 3 {
        1047138
    } else if t == 4 {
        1046021
    } else if t == 5 {
        1044585
    } else if t == 6 {
        1042831
    } else if t == 7 {
        1040760
    } else if t == 8 {
        1038371
    } else if t == 9 {
        1035666
    } else if t == 10 {
        1032645
    } else if t == 11 {
        1029310
    } else if t == 12 {
        1025662
    } else if t == 13 {
        1021701
    } else if t == 14 {
        1017428
    } else if t == 15 {
        1012846
    } else if t == 16 {
        1007955
    } else if t == 17 {
        1002758
    } else if t == 18 {
        997255
    } else if t == 19 {
        991448
    } else if t == 20 {
        985339
    } else if t == 21 {
        978930
    } else if t == 22 {
        972222
    } else if t == 23 {
        965219
    } else if t == 24 {
        957921
    } else if t == 25 {
        950332
    } else if t == 26 {
        942453
    } else if t == 27 {
        934288
    } else if t == 28 {
        925837
    } else if t == 29 {
        917105
    } else if t == 30 {
        908093
    } else if t == 31 {
        898805
    } else if t == 32 {
        889242
    } else if t == 33 {
        879409
    } else if t == 34 {
        869308
    } else if t == 35 {
        858943
    } else if t == 36 {
        848315
    } else if t == 37 {
        837430
    } else if t == 38 {
        826289
    } else if t == 39 {
        814896
    } else if t == 40 {
        803255
    } else if t == 41 {
        791370
    } else if t == 42 {
        779243
    } else if t == 43 {
        766879
    } else if t == 44 {
        754282
    } else if t == 45 {
        741455
    } else if t == 46 {
        728402
    } else if t == 47 {
        715127
    } else if t == 48 {
        701634
    } else if t == 49 {
        687927
    } else if t == 50 {
        674011
    } else if t == 51 {
        659890
    } else if t == 52 {
        645567
    } else if t == 53 {
        631048
    } else if t == 54 {
        616337
    } else if t == 55 {
        601438
    } else if t == 56 {
        586356
    } else if t == 57 {
        571095
    } else if t == 58 {
        555660
    } else if t == 59 {
        540056
    } else if t == 60 {
        524288
    } else if t == 61 {
        508359
    } else if t == 62 {
        492276
    } else if t == 63 {
        476043
    } else if t == 64 {
        459665
    } else if t == 65 {
        443147
    } else if t == 66 {
        426494
    } else if t == 67 {
        409711
    } else if t == 68 {
        392803
    } else if t == 69 {
        375776
    } else if t == 70 {
        358634
    } else if t == 71 {
        341382
    } else if t == 72 {
        324027
    } else if t == 73 {
        306573
    } else if t == 74 {
        289026
    } else if t == 75 {
        271391
    } else if t == 76 {
        253673
    } else if t == 77 {
        235878
    } else if t == 78 {
        218011
    } else if t == 79 {
        200077
    } else if t == 80 {
        182083
    } else if t == 81 {
        164033
    } else if t == 82 {
        145933
    } else if t == 83 {
        127789
    } else if t == 84 {
        109606
    } else if t == 85 {
        91389
    } else if t == 86 {
        73144
    } else if t == 87 {
        54878
    } else if t == 88 {
        36594
    } else if t == 89 {
        18300
    } else if t == 90 {
        0
    } else if t == 91 {
        -18300i64
    } else if t == 92 {
        -36594i64
    } else if t == 93 {
        -54878i64
    } else if t == 94 {
        -73144i64
    } else if t == 95 {
        -91389i64
    } else if t == 96 {
        -109606i64
    } else if t == 97 {
        -127789i64
    } else if t == 98 {
        -145933i64
    } else if t == 99 {
        -164033i64
    } else if t == 100 {
        -182083i64
    } else if t == 101 {
        -200077i64
    } else if t == 102 {
        -218011i64
    } else if t == 103 {
        -235878i64
    } else if t == 104 {
        -253673i64
    } else if t == 105 {
        -271391i64
    } else if t == 106 {
        -289026i64
    } else if t == 107 {
        -306573i64
    } else if t == 108 {
        -324027i64
    } else if t == 109 {
        -341382i64
    } else if t == 110 {
        -358634i64
    } else if t == 111 {
        -375776i64
    } else if t == 112 {
        -392803i64
    } else if t == 113 {
        -409711i64
    } else if t == 114 {
        -426494i64
    } else if t == 115 {
        -443147i64
    } else if t == 116 {
        -459665i64
    } else if t == 117 {
        -476043i64
    } else if t == 118 {
        -492276i64
    } else if t == 119 {
        -508359i64
    } else if t == 120 {
        -524287i64
    } else if t == 121 {
        -540056i64
    } else if t == 122 {
        -555660i64
    } else if t == 123 {
        -571095i64
    } else if t == 124 {
        -586356i64
    } else if t == 125 {
        -601438i64
    } else if t == 126 {
        -616337i64
    } else if t == 127 {
        -631048i64
    } else if t == 128 {
        -645567i64
    } else if t == 129 {
        -659890i64
    } else if t == 130 {
        -674011i64
    } else if t == 131 {
        -687927i64
    } else if t == 132 {
        -701634i64
    } else if t == 133 {
        -715127i64
    } else if t == 134 {
        -728402i64
    } else if t == 135 {
        -741455i64
    } else if t == 136 {
        -754282i64
    } else if t == 137 {
        -766879i64
    } else if t == 138 {
        -779243i64
    } else if t == 139 {
        -791370i64
    } else if t == 140 {
        -803255i64
    } else if t == 141 {
        -814896i64
    } else if t == 142 {
        -826289i64
    } else if t == 143 {
        -837430i64
    } else if t == 144 {
        -848315i64
    } else if t == 145 {
        -858943i64
    } else if t == 146 {
        -869308i64
    } else if t == 147 {
        -879409i64
    } else if t == 148 {
        -889242i64
    } else if t == 149 {
        -898805i64
    } else if t == 150 {
        -908093i64
    } else if t == 151 {
        -917105i64
    } else if t == 152 {
        -925837i64
    } else if t == 153 {
        -934288i64
    } else if t == 154 {
        -942453i64
    } else if t == 155 {
        -950332i64
    } else if t == 156 {
        -957921i64
    } else if t == 157 {
        -965219i64
    } else if t == 158 {
        -972222i64
    } else if t == 159 {
        -978930i64
    } else if t == 160 {
        -985339i64
    } else if t == 161 {
        -991448i64
    } else if t == 162 {
        -997255i64
    } else if t == 163 {
        -1002758i64
    } else if t == 164 {
        -1007955i64
    } else if t == 165 {
        -1012846i64
    } else if t == 166 {
        -1017428i64
    } else if t == 167 {
        -1021701i64
    } else if t == 168 {
        -1025662i64
    } else if t == 169 {
        -1029310i64
    } else if t == 170 {
        -1032645i64
    } else if t == 171 {
        -1035666i64
    } else if t == 172 {
        -1038371i64
    } else if t == 173 {
        -1040760i64
    } else if t == 174 {
        -1042831i64
    } else if t == 175 {
        -1044585i64
    } else if t == 176 {
        -1046021i64
    } else if t == 177 {
        -1047138i64
    } else if t == 178 {
        -1047937i64
    } else {
        -1048416i64
    }
}

/// The intended fixed-point sine of `t` degrees:
/// `sin(t * pi / 180) * TRIG_SCALE`, truncated toward zero.
pub open spec fn standard_sin_at(t: int) -> i64 {
    if t == 0 {
        0
    } else if t == 1 {
        18300
    } else if t == 2 {
        36594
    } else if t == 3 {
        54878
    } else if t == 4 {
        73144
    } else if t == 5 {
        91389
    } else if t == 6 {
        109606
    } else if t == 7 {
        127789
    } else if t == 8 {
        145933
    } else if t == 9 {
        164033
    } else if t == 10 {
        182083
    } else if t == 11 {
        200077
    } else if t == 12 {
        218011
    } else if t == 13 {
        235878
    } else if t == 14 {
        253673
    } else if t == 15 {
        271391
    } else if t == 16 {
        289026
    } else if t == 17 {
        306573
    } else if t == 18 {
        324027
    } else if t == 19 {
        341382
    } else if t == 20 {
        358634
    } else if t == 21 {
        375776
    } else if t == 22 {
        392803
    } else if t == 23 {
        409711
    } else if t == 24 {
        426494
    } else if t == 25 {
        443147
    } else if t == 26 {
        459665
    } else if t == 27 {
        476043
    } else if t == 28 {
        492276
    } else if t == 29 {
        508359
    } else if t == 30 {
        524287
    } else if t == 31 {
        540056
    } else if t == 32 {
        555660
    } else if t == 33 {
        571095
    } else if t == 34 {
        586356
    } else if t == 35 {
        601438
    } else if t == 36 {
        616337
    } else if t == 37 {
        631048
    } else if t == 38 {
        645567
    } else if t == 39 {
        659890
    } else if t == 40 {
        674011
    } else if t == 41 {
        687927
    } else if t == 42 {
        701634
    } else if t == 43 {
        715127
    } else if t == 44 {
        728402
    } else if t == 45 {
        741455
    } else if t == 46 {
        754282
    } else if t == 47 {
        766879
    } else if t == 48 {
        779243
    } else if t == 49 {
        791370
    } else if t == 50 {
        803255
    } else if t == 51 {
        814896
    } else if t == 52 {
        826289
    } else if t == 53 {
        837430
    } else if t == 54 {
        848315
    } else if t == 55 {
        858943
    } else if t == 56 {
        869308
    } else if t == 57 {
        879409
    } else if t == 58 {
        889242
    } else if t == 59 {
        898805
    } else if t == 60 {
        908093
    } else if t == 61 {
        917105
    } else if t == 62 {
        925837
    } else if t == 63 {
        934288
    } else if t == 64 {
        942453
    } else if t == 65 {
        950332
    } else if t == 66 {
        957921
    } else if t == 67 {
        965219
    } else if t == 68 {
        972222
    } else if t == 69 {
        978930
    } else if t == 70 {
        985339
    } else if t == 71 {
        991448
    } else if t == 72 {
        997255
    } else if t == 73 {
        1002758
    } else if t == 74 {
        1007955
    } else if t == 75 {
        1012846
    } else if t == 76 {
        1017428
    } else if t == 77 {
        1021701
    } else if t == 78 {
        1025662
    } else if t == 79 {
        1029310
    } else if t == 80 {
        1032645
    } else if t == 81 {
        1035666
    } else if t == 82 {
        1038371
    } else if t == 83 {
        1040760
    } else if t == 84 {
        1042831
    } else if t == 85 {
        1044585
    } else if t == 86 {
        1046021
    } else if t == 87 {
        1047138
    } else if t == 88 {
        1047937
    } else if t == 89 {
        1048416
    } else if t == 90 {
        1048576
    } else if t == 91 {
        1048416
    } else if t == 92 {
        1047937
    } else if t == 93 {
        1047138
    } else if t == 94 {
        1046021
    } else if t == 95 {
        1044585
    } else if t == 96 {
        1042831
    } else if t == 97 {
        1040760
    } else if t == 98 {
        1038371
    } else if t == 99 {
        1035666
    } else if t == 100 {
        1032645
    } else if t == 101 {
        1029310
    } else if t == 102 {
        1025662
    } else if t == 103 {
        1021701
    } else if t == 104 {
        1017428
    } else if t == 105 {
        1012846
    } else if t == 106 {
        1007955
    } else if t == 107 {
        1002758
    } else if t == 108 {
        997255
    } else if t == 109 {
        991448
    } else if t == 110 {
        985339
    } else if t == 111 {
        978930
    } else if t == 112 {
        972222
    } else if t == 113 {
        965219
    } else if t == 114 {
        957921
    } else if t == 115 {
        950332
    } else if t == 116 {
        942453
    } else if t == 117 {
        934288
    } else if t == 118 {
        925837
    } else if t == 119 {
        917105
    } else if t == 120 {
        908093
    } else if t == 121 {
        898805
    } else if t == 122 {
        889242
    } else if t == 123 {
        879409
    } else if t == 124 {
        869308
    } else if t == 125 {
        858943
    } else if t == 126 {
        848315
    } else if t == 127 {
        837430
    } else if t == 128 {
        826289
    } else if t == 129 {
        814896
    } else if t == 130 {
        803255
    } else if t == 131 {
        791370
    } else if t == 132 {
        779243
    } else if t == 133 {
        766879
    } else if t == 134 {
        754282
    } else if t == 135 {
        741455
    } else if t == 136 {
        728402
    } else if t == 137 {
        715127
    } else if t == 138 {
        701634
    } else if t == 139 {
        687927
    } else if t == 140 {
        674011
    } else if t == 141 {
        659890
    } else if t == 142 {
        645567
    } else if t == 143 {
        631048
    } else if t == 144 {
        616337
    } else if t == 145 {
        601438
    } else if t == 146 {
        586356
    } else if t == 147 {
        571095
    } else if t == 148 {
        555660
    } else if t == 149 {
        540056
    } else if t == 150 {
        524287
    } else if t == 151 {
        508359
    } else if t == 152 {
        492276
    } else if t == 153 {
        476043
    } else if t == 154 {
        459665
    } else if t == 155 {
        443147
    } else if t == 156 {
        426494
    } else if t == 157 {
        409711
    } else if t == 158 {
        392803
    } else if t == 159 {
        375776
    } else if t == 160 {
        358634
    } else if t == 161 {
        341382
    } else if t == 162 {
        324027
    } else if t == 163 {
        306573
    } else if t == 164 {
        289026
    } else if t == 165 {
        271391
    } else if t == 166 {
        253673
    } else if t == 167 {
        235878
    } else if t == 168 {
        218011
    } else if t == 169 {
        200077
    } else if t == 170 {
        182083
    } else if t == 171 {
        164033
    } else if t == 172 {
        145933
    } else if t == 173 {
        127789
    } else if t == 174 {
        109606
    } else if t == 175 {
        91389
    } else if t == 176 {
        73144
    } else if t == 177 {
        54878
    } else if t == 178 {
        36594
    } else {
        18300
    }
}

/// The intended cosine entries, one per integer degree.
pub open spec fn standard_cos() -> Seq<i64> {
    Seq::new(180, |t: int| standard_cos_at(t))
}

/// The intended sine entries, one per integer degree.
pub open spec fn standard_sin() -> Seq<i64> {
    Seq::new(180, |t: int| standard_sin_at(t))
}

/// What [`trig_entries_ok`] asks of the intended entries at one degree.
pub open spec fn standard_entry_ok(t: int) -> bool {
    &&& -TRIG_SCALE <= standard_cos_at(t) <= TRIG_SCALE
    &&& -TRIG_SCALE <= standard_sin_at(t) <= TRIG_SCALE
    &&& standard_cos_at(t) * standard_cos_at(t) + standard_sin_at(t) * standard_sin_at(t)
        <= TRIG_SCALE * TRIG_SCALE
    &&& t >= 1 ==> standard_sin_at(t) >= 1
}

/// The intended entries meet every table bound: each pair lies on or
/// inside the circle of radius [`TRIG_SCALE`], and the sine is positive
/// off the zero angle.  Checked degree by degree.
pub proof fn lemma_standard_entries_ok()
    ensures
        trig_entries_ok(standard_cos(), standard_sin()),
{
    assert(standard_cos_at(0) * standard_cos_at(0) + standard_sin_at(0)
        * standard_sin_at(0) <= TRIG_SCALE * TRIG_SCALE) by (nonlinear_arith)
        requires
            standard_cos_at(0) == 1048576,
            standard_sin_at(0) == 0,
    ;
    assert(standard_entry_ok(0));
    assert(standard_cos_at(1) * standard_cos_at(1) + standard_sin_at(1)
        * standard_sin_at(1) <= TRIG_SCALE * TRIG_SCALE) by (nonlinear_arith)
        requires
            standard_cos_at(1) == 1048416,
            standard_sin_at(1) == 18300,
    ;
    assert(standard_entry_ok(1));
    assert(standard_cos_at(2) * standard_cos_at(2) + standard_sin_at(2)
        * standard_sin_at(2) <= TRIG_SCALE * TRIG_SCALE) by (nonlinear_arith)
        requires
            standard_cos_at(2) == 1047937,
            standard_sin_at(2) == 36594,
    ;
    assert(standard_entry_ok(2));
    assert(standard_cos_at(3) * standard_cos_at(3) + standard_sin_at(3)
        * standard_sin_at(3) <= TRIG_SCALE * TRIG_SCALE) by (nonlinear_arith)
        requires
            standard_cos_at(3) == 1047138,
            standard_sin_at(3) == 54878,
    ;
    assert(standard_entry_ok(3));
    assert(standard_cos_at(4) * standard_cos_at(4) + standard_sin_at(4)
        * standard_sin_at(4) <= TRIG_SCALE * TRIG_SCALE) by (nonlinear_arith)
        requires
            standard_cos_at(4) == 1046021,
            standard_sin_at(4) == 73144,
    ;
    assert(standard_entry_ok(4));
    assert(standard_cos_at(5) * standard_cos_at(5) + standard_sin_at(5)
        * standard_sin_at(5) <= TRIG_SCALE * TRIG_SCALE) by (nonlinear_arith)
        requires
            standard_cos_at(5) == 1044585,
            standard_sin_at(5) == 91389,
    ;
    assert(standard_entry_ok(5));
    assert(standard_cos_at(6) * standard_cos_at(6) + standard_sin_at(6)
        * standard_sin_at(6) <= TRIG_SCALE * TRIG_SCALE) by (nonlinear_arith)
        requires
            standard_cos_at(6) == 1042831,
            standard_sin_at(6) == 109606,
    ;
    assert(standard_entry_ok(6));
    assert(standard_cos_at(7) * standard_cos_at(7) + standard_sin_at(7)
        * standard_sin_at(7) <= TRIG_SCALE * TRIG_SCALE) by (nonlinear_arith)
        requires
            standard_cos_at(7) == 1040760,
            standard_sin_at(7) == 127789,
    ;
    assert(standard_entry_ok(7));
    assert(standard_cos_at(8) * standard_cos_at(8) + standard_sin_at(8)
        * standard_sin_at(8) <= TRIG_SCALE * TRIG_SCALE) by (nonlinear_arith)
        requires
            standard_cos_at(8) == 1038371,
            standard_sin_at(8) == 145933,
    ;
    assert(standard_entry_ok(8));
    assert(standard_cos_at(9) * standard_cos_at(9) + standard_sin_at(9)
        * standard_sin_at(9) <= TRIG_SCALE * TRIG_SCALE) by (nonlinear_arith)
        requires
            standard_cos_at(9) == 1035666,
            standard_sin_at(9) == 164033,
    ;
    assert(standard_entry_ok(9));
    assert(standard_cos_at(10) * standard_cos_at(10) + standard_sin_at(10)
        * standard_sin_at(10) <= TRIG_SCALE * TRIG_SCALE) by (nonlinear_arith)
        requires
            standard_cos_at(10) == 1032645,
            standard_sin_at(10) == 182083,
    ;
    assert(standard_entry_ok(10));
    assert(standard_cos_at(11) * standard_cos_at(11) + standard_sin_at(11)
        * standard_sin_at(11) <= TRIG_SCALE * TRIG_SCALE) by (nonlinear_arith)
        requires
            standard_cos_at(11) == 1029310,
            standard_sin_at(11) == 200077,
    ;
    assert(standard_entry_ok(11));
    assert(standard_cos_at(12) * standard_cos_at(12) + standard_sin_at(12)
        * standard_sin_at(12) <= TRIG_SCALE * TRIG_SCALE) by (nonlinear_arith)
        requires
            standard_cos_at(12) == 1025662,
            standard_sin_at(12) == 218011,
    ;
    assert(standard_entry_ok(12));
    assert(standard_cos_at(13) * standard_cos_at(13) + standard_sin_at(13)
        * standard_sin_at(13) <= TRIG_SCALE * TRIG_SCALE) by (nonlinear_arith)
        requires
            standard_cos_at(13) == 1021701,
            standard_sin_at(13) == 235878,
    ;
    assert(standard_entry_ok(13));
    assert(standard_cos_at(14) * standard_cos_at(14) + standard_sin_at(14)
        * standard_sin_at(14) <= TRIG_SCALE * TRIG_SCALE) by (nonlinear_arith)
        requires
            standard_cos_at(14) == 1017428,
            standard_sin_at(14) == 253673,
    ;
    assert(standard_entry_ok(14));
    assert(standard_cos_at(15) * standard_cos_at(15) + standard_sin_at(15)
        * standard_sin_at(15) <= TRIG_SCALE * TRIG_SCALE) by (nonlinear_arith)
        requires
            standard_cos_at(15) == 1012846,
            standard_sin_at(15) == 271391,
    ;
    assert(standard_entry_ok(15));
    assert(standard_cos_at(16) * standard_cos_at(16) + standard_sin_at(16)
        * standard_sin_at(16) <= TRIG_SCALE * TRIG_SCALE) by (nonlinear_arith)
        requires
            standard_cos_at(16) == 1007955,
            standard_sin_at(16) == 289026,
    ;
    assert(standard_entry_ok(16));
    assert(standard_cos_at(17) * standard_cos_at(17) + standard_sin_at(17)
        * standard_sin_at(17) <= TRIG_SCALE * TRIG_SCALE) by (nonlinear_arith)
        requires
            standard_cos_at(17) == 1002758,
            standard_sin_at(17) == 306573,
    ;
    assert(standard_entry_ok(17));
    assert(standard_cos_at(18) * standard_cos_at(18) + standard_sin_at(18)
        * standard_sin_at(18) <= TRIG_SCALE * TRIG_SCALE) by (nonlinear_arith)
        requires
            standard_cos_at(18) == 997255,
            standard_sin_at(18) == 324027,
    ;
    assert(standard_entry_ok(18));
    assert(standard_cos_at(19) * standard_cos_at(19) + standard_sin_at(19)
        * standard_sin_at(19) <= TRIG_SCALE * TRIG_SCALE) by (nonlinear_arith)
        requires
            standard_cos_at(19) == 991448,
            standard_sin_at(19) == 341382,
    ;
    assert(standard_entry_ok(19));
    assert(standard_cos_at(20) * standard_cos_at(20) + standard_sin_at(20)
        * standard_sin_at(20) <= TRIG_SCALE * TRIG_SCALE) by (nonlinear_arith)
        requires
            standard_cos_at(20) == 985339,
            standard_sin_at(20) == 358634,
    ;
    assert(standard_entry_ok(20));
    assert(standard_cos_at(21) * standard_cos_at(21) + standard_sin_at(21)
        * standard_sin_at(21) <= TRIG_SCALE * TRIG_SCALE) by (nonlinear_arith)
        requires
            standard_cos_at(21) == 978930,
            standard_sin_at(21) == 375776,
    ;
    assert(standard_entry_ok(21));
    assert(standard_cos_at(22) * standard_cos_at(22) + standard_sin_at(22)
        * standard_sin_at(22) <= TRIG_SCALE * TRIG_SCALE) by (nonlinear_arith)
        requires
            standard_cos_at(22) == 972222,
            standard_sin_at(22) == 392803,
    ;
    assert(standard_entry_ok(22));
    assert(standard_cos_at(23) * standard_cos_at(23) + standard_sin_at(23)
        * standard_sin_at(23) <= TRIG_SCALE * TRIG_SCALE) by (nonlinear_arith)
        requires
            standard_cos_at(23) == 965219,
            standard_sin_at(23) == 409711,
    ;
    assert(standard_entry_ok(23));
    assert(standard_cos_at(24) * standard_cos_at(24) + standard_sin_at(24)
        * standard_sin_at(24) <= TRIG_SCALE * TRIG_SCALE) by (nonlinear_arith)
        requires
            standard_cos_at(24) == 957921,
            standard_sin_at(24) == 426494,
    ;
    assert(standard_entry_ok(24));
    assert(standard_cos_at(25) * standard_cos_at(25) + standard_sin_at(25)
        * standard_sin_at(25) <= TRIG_SCALE * TRIG_SCALE) by (nonlinear_arith)
        requires
            standard_cos_at(25) == 950332,
            standard_sin_at(25) == 443147,
    ;
    assert(standard_entry_ok(25));
    assert(standard_cos_at(26) * standard_cos_at(26) + standard_sin_at(26)
        * standard_sin_at(26) <= TRIG_SCALE * TRIG_SCALE) by (nonlinear_arith)
        requires
            standard_cos_at(26) == 942453,
            standard_sin_at(26) == 459665,
    ;
    assert(standard_entry_ok(26));
    assert(standard_cos_at(27) * standard_cos_at(27) + standard_sin_at(27)
        * standard_sin_at(27) <= TRIG_SCALE * TRIG_SCALE) by (nonlinear_arith)
        requires
            standard_cos_at(27) == 934288,
            standard_sin_at(27) == 476043,
    ;
    assert(standard_entry_ok(27));
    assert(standard_cos_at(28) * standard_cos_at(28) + standard_sin_at(28)
        * standard_sin_at(28) <= TRIG_SCALE * TRIG_SCALE) by (nonlinear_arith)
        requires
            standard_cos_at(28) == 925837,
            standard_sin_at(28) == 492276,
    ;
    assert(standard_entry_ok(28));
    assert(standard_cos_at(29) * standard_cos_at(29) + standard_sin_at(29)
        * standard_sin_at(29) <= TRIG_SCALE * TRIG_SCALE) by (nonlinear_arith)
        requires
            standard_cos_at(29) == 917105,
            standard_sin_at(29) == 508359,
    ;
    assert(standard_entry_ok(29));
    assert(standard_cos_at(30) * standard_cos_at(30) + standard_sin_at(30)
        * standard_sin_at(30) <= TRIG_SCALE * TRIG_SCALE) by (nonlinear_arith)
        requires
            standard_cos_at(30) == 908093,
            standard_sin_at(30) == 524287,
    ;
    assert(standard_entry_ok(30));
    assert(standard_cos_at(31) * standard_cos_at(31) + standard_sin_at(31)
        * standard_sin_at(31) <= TRIG_SCALE * TRIG_SCALE) by (nonlinear_arith)
        requires
            standard_cos_at(31) == 898805,
            standard_sin_at(31) == 540056,
    ;
    assert(standard_entry_ok(31));
    assert(standard_cos_at(32) * standard_cos_at(32) + standard_sin_at(32)
        * standard_sin_at(32) <= TRIG_SCALE * TRIG_SCALE) by (nonlinear_arith)
        requires
            standard_cos_at(32) == 889242,
            standard_sin_at(32) == 555660,
    ;
    assert(standard_entry_ok(32));
    assert(standard_cos_at(33) * standard_cos_at(33) + standard_sin_at(33)
        * standard_sin_at(33) <= TRIG_SCALE * TRIG_SCALE) by (nonlinear_arith)
        requires
            standard_cos_at(33) == 879409,
            standard_sin_at(33) == 571095,
    ;
    assert(standard_entry_ok(33));
    assert(standard_cos_at(34) * standard_cos_at(34) + standard_sin_at(34)
        * standard_sin_at(34) <= TRIG_SCALE * TRIG_SCALE) by (nonlinear_arith)
        requires
            standard_cos_at(34) == 869308,
            standard_sin_at(34) == 586356,
    ;
    assert(standard_entry_ok(34));
    assert(standard_cos_at(35) * standard_cos_at(35) + standard_sin_at(35)
        * standard_sin_at(35) <= TRIG_SCALE * TRIG_SCALE) by (nonlinear_arith)
        requires
            standard_cos_at(35) == 858943,
            standard_sin_at(35) == 601438,
    ;
    assert(standard_entry_ok(35));
    assert(standard_cos_at(36) * standard_cos_at(36) + standard_sin_at(36)
        * standard_sin_at(36) <= TRIG_SCALE * TRIG_SCALE) by (nonlinear_arith)
        requires
            standard_cos_at(36) == 848315,
            standard_sin_at(36) == 616337,
    ;
    assert(standard_entry_ok(36));
    assert(standard_cos_at(37) * standard_cos_at(37) + standard_sin_at(37)
        * standard_sin_at(37) <= TRIG_SCALE * TRIG_SCALE) by (nonlinear_arith)
        requires
            standard_cos_at(37) == 837430,
            standard_sin_at(37) == 631048,
    ;
    assert(standard_entry_ok(37));
    assert(standard_cos_at(38) * standard_cos_at(38) + standard_sin_at(38)
        * standard_sin_at(38) <= TRIG_SCALE * TRIG_SCALE) by (nonlinear_arith)
        requires
            standard_cos_at(38) == 826289,
            standard_sin_at(38) == 645567,
    ;
    assert(standard_entry_ok(38));
    assert(standard_cos_at(39) * standard_cos_at(39) + standard_sin_at(39)
        * standard_sin_at(39) <= TRIG_SCALE * TRIG_SCALE) by (nonlinear_arith)
        requires
            standard_cos_at(39) == 814896,
            standard_sin_at(39) == 659890,
    ;
    assert(standard_entry_ok(39));
    assert(standard_cos_at(40) * standard_cos_at(40) + standard_sin_at(40)
        * standard_sin_at(40) <= TRIG_SCALE * TRIG_SCALE) by (nonlinear_arith)
        requires
            standard_cos_at(40) == 803255,
            standard_sin_at(40) == 674011,
    ;
    assert(standard_entry_ok(40));
    assert(standard_cos_at(41) * standard_cos_at(41) + standard_sin_at(41)
        * standard_sin_at(41) <= TRIG_SCALE * TRIG_SCALE) by (nonlinear_arith)
        requires
            standard_cos_at(41) == 791370,
            standard_sin_at(41) == 687927,
    ;
    assert(standard_entry_ok(41));
    assert(standard_cos_at(42) * standard_cos_at(42) + standard_sin_at(42)
        * standard_sin_at(42) <= TRIG_SCALE * TRIG_SCALE) by (nonlinear_arith)
        requires
            standard_cos_at(42) == 779243,
            standard_sin_at(42) == 701634,
    ;
    assert(standard_entry_ok(42));
    assert(standard_cos_at(43) * standard_cos_at(43) + standard_sin_at(43)
        * standard_sin_at(43) <= TRIG_SCALE * TRIG_SCALE) by (nonlinear_arith)
        requires
            standard_cos_at(43) == 766879,
            standard_sin_at(43) == 715127,
    ;
    assert(standard_entry_ok(43));
    assert(standard_cos_at(44) * standard_cos_at(44) + standard_sin_at(44)
        * standard_sin_at(44) <= TRIG_SCALE * TRIG_SCALE) by (nonlinear_arith)
        requires
            standard_cos_at(44) == 754282,
            standard_sin_at(44) == 728402,
    ;
    assert(standard_entry_ok(44));
    assert(standard_cos_at(45) * standard_cos_at(45) + standard_sin_at(45)
        * standard_sin_at(45) <= TRIG_SCALE * TRIG_SCALE) by (nonlinear_arith)
        requires
            standard_cos_at(45) == 741455,
            standard_sin_at(45) == 741455,
    ;
    assert(standard_entry_ok(45));
    assert(standard_cos_at(46) * standard_cos_at(46) + standard_sin_at(46)
        * standard_sin_at(46) <= TRIG_SCALE * TRIG_SCALE) by (nonlinear_arith)
        requires
            standard_cos_at(46) == 728402,
            standard_sin_at(46) == 754282,
    ;
    assert(standard_entry_ok(46));
    assert(standard_cos_at(47) * standard_cos_at(47) + standard_sin_at(47)
        * standard_sin_at(47) <= TRIG_SCALE * TRIG_SCALE) by (nonlinear_arith)
        requires
            standard_cos_at(47) == 715127,
            standard_sin_at(47) == 766879,
    ;
    assert(standard_entry_ok(47));
    assert(standard_cos_at(48) * standard_cos_at(48) + standard_sin_at(48)
        * standard_sin_at(48) <= TRIG_SCALE * TRIG_SCALE) by (nonlinear_arith)
        requires
            standard_cos_at(48) == 701634,
            standard_sin_at(48) == 779243,
    ;
    assert(standard_entry_ok(48));
    assert(standard_cos_at(49) * standard_cos_at(49) + standard_sin_at(49)
        * standard_sin_at(49) <= TRIG_SCALE * TRIG_SCALE) by (nonlinear_arith)
        requires
            standard_cos_at(49) == 687927,
            standard_sin_at(49) == 791370,
    ;
    assert(standard_entry_ok(49));
    assert(standard_cos_at(50) * standard_cos_at(50) + standard_sin_at(50)
        * standard_sin_at(50) <= TRIG_SCALE * TRIG_SCALE) by (nonlinear_arith)
        requires
            standard_cos_at(50) == 674011,
            standard_sin_at(50) == 803255,
    ;
    assert(standard_entry_ok(50));
    assert(standard_cos_at(51) * standard_cos_at(51) + standard_sin_at(51)
        * standard_sin_at(51) <= TRIG_SCALE * TRIG_SCALE) by (nonlinear_arith)
        requires
            standard_cos_at(51) == 659890,
            standard_sin_at(51) == 814896,
    ;
    assert(standard_entry_ok(51));
    assert(standard_cos_at(52) * standard_cos_at(52) + standard_sin_at(52)
        * standard_sin_at(52) <= TRIG_SCALE * TRIG_SCALE) by (nonlinear_arith)
        requires
            standard_cos_at(52) == 645567,
            standard_sin_at(52) == 826289,
    ;
    assert(standard_entry_ok(52));
    assert(standard_cos_at(53) * standard_cos_at(53) + standard_sin_at(53)
        * standard_sin_at(53) <= TRIG_SCALE * TRIG_SCALE) by (nonlinear_arith)
        requires
            standard_cos_at(53) == 631048,
            standard_sin_at(53) == 837430,
    ;
    assert(standard_entry_ok(53));
    assert(standard_cos_at(54) * standard_cos_at(54) + standard_sin_at(54)
        * standard_sin_at(54) <= TRIG_SCALE * TRIG_SCALE) by (nonlinear_arith)
        requires
            standard_cos_at(54) == 616337,
            standard_sin_at(54) == 848315,
    ;
    assert(standard_entry_ok(54));
    assert(standard_cos_at(55) * standard_cos_at(55) + standard_sin_at(55)
        * standard_sin_at(55) <= TRIG_SCALE * TRIG_SCALE) by (nonlinear_arith)
        requires
            standard_cos_at(55) == 601438,
            standard_sin_at(55) == 858943,
    ;
    assert(standard_entry_ok(55));
    assert(standard_cos_at(56) * standard_cos_at(56) + standard_sin_at(56)
        * standard_sin_at(56) <= TRIG_SCALE * TRIG_SCALE) by (nonlinear_arith)
        requires
            standard_cos_at(56) == 586356,
            standard_sin_at(56) == 869308,
    ;
    assert(standard_entry_ok(56));
    assert(standard_cos_at(57) * standard_cos_at(57) + standard_sin_at(57)
        * standard_sin_at(57) <= TRIG_SCALE * TRIG_SCALE) by (nonlinear_arith)
        requires
            standard_cos_at(57) == 571095,
            standard_sin_at(57) == 879409,
    ;
    assert(standard_entry_ok(57));
    assert(standard_cos_at(58) * standard_cos_at(58) + standard_sin_at(58)
        * standard_sin_at(58) <= TRIG_SCALE * TRIG_SCALE) by (nonlinear_arith)
        requires
            standard_cos_at(58) == 555660,
            standard_sin_at(58) == 889242,
    ;
    assert(standard_entry_ok(58));
    assert(standard_cos_at(59) * standard_cos_at(59) + standard_sin_at(59)
        * standard_sin_at(59) <= TRIG_SCALE * TRIG_SCALE) by (nonlinear_arith)
        requires
            standard_cos_at(59) == 540056,
            standard_sin_at(59) == 898805,
    ;
    assert(standard_entry_ok(59));
    assert(standard_cos_at(60) * standard_cos_at(60) + standard_sin_at(60)
        * standard_sin_at(60) <= TRIG_SCALE * TRIG_SCALE) by (nonlinear_arith)
        requires
            standard_cos_at(60) == 524288,
            standard_sin_at(60) == 908093,
    ;
    assert(standard_entry_ok(60));
    assert(standard_cos_at(61) * standard_cos_at(61) + standard_sin_at(61)
        * standard_sin_at(61) <= TRIG_SCALE * TRIG_SCALE) by (nonlinear_arith)
        requires
            standard_cos_at(61) == 508359,
            standard_sin_at(61) == 917105,
    ;
    assert(standard_entry_ok(61));
    assert(standard_cos_at(62) * standard_cos_at(62) + standard_sin_at(62)
        * standard_sin_at(62) <= TRIG_SCALE * TRIG_SCALE) by (nonlinear_arith)
        requires
            standard_cos_at(62) == 492276,
            standard_sin_at(62) == 925837,
    ;
    assert(standard_entry_ok(62));
    assert(standard_cos_at(63) * standard_cos_at(63) + standard_sin_at(63)
        * standard_sin_at(63) <= TRIG_SCALE * TRIG_SCALE) by (nonlinear_arith)
        requires
            standard_cos_at(63) == 476043,
            standard_sin_at(63) == 934288,
    ;
    assert(standard_entry_ok(63));
    assert(standard_cos_at(64) * standard_cos_at(64) + standard_sin_at(64)
        * standard_sin_at(64) <= TRIG_SCALE * TRIG_SCALE) by (nonlinear_arith)
        requires
            standard_cos_at(64) == 459665,
            standard_sin_at(64) == 942453,
    ;
    assert(standard_entry_ok(64));
    assert(standard_cos_at(65) * standard_cos_at(65) + standard_sin_at(65)
        * standard_sin_at(65) <= TRIG_SCALE * TRIG_SCALE) by (nonlinear_arith)
        requires
            standard_cos_at(65) == 443147,
            standard_sin_at(65) == 950332,
    ;
    assert(standard_entry_ok(65));
    assert(standard_cos_at(66) * standard_cos_at(66) + standard_sin_at(66)
        * standard_sin_at(66) <= TRIG_SCALE * TRIG_SCALE) by (nonlinear_arith)
        requires
            standard_cos_at(66) == 426494,
            standard_sin_at(66) == 957921,
    ;
    assert(standard_entry_ok(66));
    assert(standard_cos_at(67) * standard_cos_at(67) + standard_sin_at(67)
        * standard_sin_at(67) <= TRIG_SCALE * TRIG_SCALE) by (nonlinear_arith)
        requires
            standard_cos_at(67) == 409711,
            standard_sin_at(67) == 965219,
    ;
    assert(standard_entry_ok(67));
    assert(standard_cos_at(68) * standard_cos_at(68) + standard_sin_at(68)
        * standard_sin_at(68) <= TRIG_SCALE * TRIG_SCALE) by (nonlinear_arith)
        requires
            standard_cos_at(68) == 392803,
            standard_sin_at(68) == 972222,
    ;
    assert(standard_entry_ok(68));
    assert(standard_cos_at(69) * standard_cos_at(69) + standard_sin_at(69)
        * standard_sin_at(69) <= TRIG_SCALE * TRIG_SCALE) by (nonlinear_arith)
        requires
            standard_cos_at(69) == 375776,
            standard_sin_at(69) == 978930,
    ;
    assert(standard_entry_ok(69));
    assert(standard_cos_at(70) * standard_cos_at(70) + standard_sin_at(70)
        * standard_sin_at(70) <= TRIG_SCALE * TRIG_SCALE) by (nonlinear_arith)
        requires
            standard_cos_at(70) == 358634,
            standard_sin_at(70) == 985339,
    ;
    assert(standard_entry_ok(70));
    assert(standard_cos_at(71) * standard_cos_at(71) + standard_sin_at(71)
        * standard_sin_at(71) <= TRIG_SCALE * TRIG_SCALE) by (nonlinear_arith)
        requires
            standard_cos_at(71) == 341382,
            standard_sin_at(71) == 991448,
    ;
    assert(standard_entry_ok(71));
    assert(standard_cos_at(72) * standard_cos_at(72) + standard_sin_at(72)
        * standard_sin_at(72) <= TRIG_SCALE * TRIG_SCALE) by (nonlinear_arith)
        requires
            standard_cos_at(72) == 324027,
            standard_sin_at(72) == 997255,
    ;
    assert(standard_entry_ok(72));
    assert(standard_cos_at(73) * standard_cos_at(73) + standard_sin_at(73)
        * standard_sin_at(73) <= TRIG_SCALE * TRIG_SCALE) by (nonlinear_arith)
        requires
            standard_cos_at(73) == 306573,
            standard_sin_at(73) == 1002758,
    ;
    assert(standard_entry_ok(73));
    assert(standard_cos_at(74) * standard_cos_at(74) + standard_sin_at(74)
        * standard_sin_at(74) <= TRIG_SCALE * TRIG_SCALE) by (nonlinear_arith)
        requires
            standard_cos_at(74) == 289026,
            standard_sin_at(74) == 1007955,
    ;
    assert(standard_entry_ok(74));
    assert(standard_cos_at(75) * standard_cos_at(75) + standard_sin_at(75)
        * standard_sin_at(75) <= TRIG_SCALE * TRIG_SCALE) by (nonlinear_arith)
        requires
            standard_cos_at(75) == 271391,
            standard_sin_at(75) == 1012846,
    ;
    assert(standard_entry_ok(75));
    assert(standard_cos_at(76) * standard_cos_at(76) + standard_sin_at(76)
        * standard_sin_at(76) <= TRIG_SCALE * TRIG_SCALE) by (nonlinear_arith)
        requires
            standard_cos_at(76) == 253673,
            standard_sin_at(76) == 1017428,
    ;
    assert(standard_entry_ok(76));
    assert(standard_cos_at(77) * standard_cos_at(77) + standard_sin_at(77)
        * standard_sin_at(77) <= TRIG_SCALE * TRIG_SCALE) by (nonlinear_arith)
        requires
            standard_cos_at(77) == 235878,
            standard_sin_at(77) == 1021701,
    ;
    assert(standard_entry_ok(77));
    assert(standard_cos_at(78) * standard_cos_at(78) + standard_sin_at(78)
        * standard_sin_at(78) <= TRIG_SCALE * TRIG_SCALE) by (nonlinear_arith)
        requires
            standard_cos_at(78) == 218011,
            standard_sin_at(78) == 1025662,
    ;
    assert(standard_entry_ok(78));
    assert(standard_cos_at(79) * standard_cos_at(79) + standard_sin_at(79)
        * standard_sin_at(79) <= TRIG_SCALE * TRIG_SCALE) by (nonlinear_arith)
        requires
            standard_cos_at(79) == 200077,
            standard_sin_at(79) == 1029310,
    ;
    assert(standard_entry_ok(79));
    assert(standard_cos_at(80) * standard_cos_at(80) + standard_sin_at(80)
        * standard_sin_at(80) <= TRIG_SCALE * TRIG_SCALE) by (nonlinear_arith)
        requires
            standard_cos_at(80) == 182083,
            standard_sin_at(80) == 1032645,
    ;
    assert(standard_entry_ok(80));
    assert(standard_cos_at(81) * standard_cos_at(81) + standard_sin_at(81)
        * standard_sin_at(81) <= TRIG_SCALE * TRIG_SCALE) by (nonlinear_arith)
        requires
            standard_cos_at(81) == 164033,
            standard_sin_at(81) == 1035666,
    ;
    assert(standard_entry_ok(81));
    assert(standard_cos_at(82) * standard_cos_at(82) + standard_sin_at(82)
        * standard_sin_at(82) <= TRIG_SCALE * TRIG_SCALE) by (nonlinear_arith)
        requires
            standard_cos_at(82) == 145933,
            standard_sin_at(82) == 1038371,
    ;
    assert(standard_entry_ok(82));
    assert(standard_cos_at(83) * standard_cos_at(83) + standard_sin_at(83)
        * standard_sin_at(83) <= TRIG_SCALE * TRIG_SCALE) by (nonlinear_arith)
        requires
            standard_cos_at(83) == 127789,
            standard_sin_at(83) == 1040760,
    ;
    assert(standard_entry_ok(83));
    assert(standard_cos_at(84) * standard_cos_at(84) + standard_sin_at(84)
        * standard_sin_at(84) <= TRIG_SCALE * TRIG_SCALE) by (nonlinear_arith)
        requires
            standard_cos_at(84) == 109606,
            standard_sin_at(84) == 1042831,
    ;
    assert(standard_entry_ok(84));
    assert(standard_cos_at(85) * standard_cos_at(85) + standard_sin_at(85)
        * standard_sin_at(85) <= TRIG_SCALE * TRIG_SCALE) by (nonlinear_arith)
        requires
            standard_cos_at(85) == 91389,
            standard_sin_at(85) == 1044585,
    ;
    assert(standard_entry_ok(85));
    assert(standard_cos_at(86) * standard_cos_at(86) + standard_sin_at(86)
        * standard_sin_at(86) <= TRIG_SCALE * TRIG_SCALE) by (nonlinear_arith)
        requires
            standard_cos_at(86) == 73144,
            standard_sin_at(86) == 1046021,
    ;
    assert(standard_entry_ok(86));
    assert(standard_cos_at(87) * standard_cos_at(87) + standard_sin_at(87)
        * standard_sin_at(87) <= TRIG_SCALE * TRIG_SCALE) by (nonlinear_arith)
        requires
            standard_cos_at(87) == 54878,
            standard_sin_at(87) == 1047138,
    ;
    assert(standard_entry_ok(87));
    assert(standard_cos_at(88) * standard_cos_at(88) + standard_sin_at(88)
        * standard_sin_at(88) <= TRIG_SCALE * TRIG_SCALE) by (nonlinear_arith)
        requires
            standard_cos_at(88) == 36594,
            standard_sin_at(88) == 1047937,
    ;
    assert(standard_entry_ok(88));
    assert(standard_cos_at(89) * standard_cos_at(89) + standard_sin_at(89)
        * standard_sin_at(89) <= TRIG_SCALE * TRIG_SCALE) by (nonlinear_arith)
        requires
            standard_cos_at(89) == 18300,
            standard_sin_at(89) == 1048416,
    ;
    assert(standard_entry_ok(89));
    assert(standard_cos_at(90) * standard_cos_at(90) + standard_sin_at(90)
        * standard_sin_at(90) <= TRIG_SCALE * TRIG_SCALE) by (nonlinear_arith)
        requires
            standard_cos_at(90) == 0,
            standard_sin_at(90) == 1048576,
    ;
    assert(standard_entry_ok(90));
    assert(standard_cos_at(91) * standard_cos_at(91) + standard_sin_at(91)
        * standard_sin_at(91) <= TRIG_SCALE * TRIG_SCALE) by (nonlinear_arith)
        requires
            standard_cos_at(91) == -18300,
            standard_sin_at(91) == 1048416,
    ;
    assert(standard_entry_ok(91));
    assert(standard_cos_at(92) * standard_cos_at(92) + standard_sin_at(92)
        * standard_sin_at(92) <= TRIG_SCALE * TRIG_SCALE) by (nonlinear_arith)
        requires
            standard_cos_at(92) == -36594,
            standard_sin_at(92) == 1047937,
    ;
    assert(standard_entry_ok(92));
    assert(standard_cos_at(93) * standard_cos_at(93) + standard_sin_at(93)
        * standard_sin_at(93) <= TRIG_SCALE * TRIG_SCALE) by (nonlinear_arith)
        requires
            standard_cos_at(93) == -54878,
            standard_sin_at(93) == 1047138,
    ;
    assert(standard_entry_ok(93));
    assert(standard_cos_at(94) * standard_cos_at(94) + standard_sin_at(94)
        * standard_sin_at(94) <= TRIG_SCALE * TRIG_SCALE) by (nonlinear_arith)
        requires
            standard_cos_at(94) == -73144,
            standard_sin_at(94) == 1046021,
    ;
    assert(standard_entry_ok(94));
    assert(standard_cos_at(95) * standard_cos_at(95) + standard_sin_at(95)
        * standard_sin_at(95) <= TRIG_SCALE * TRIG_SCALE) by (nonlinear_arith)
        requires
            standard_cos_at(95) == -91389,
            standard_sin_at(95) == 1044585,
    ;
    assert(standard_entry_ok(95));
    assert(standard_cos_at(96) * standard_cos_at(96) + standard_sin_at(96)
        * standard_sin_at(96) <= TRIG_SCALE * TRIG_SCALE) by (nonlinear_arith)
        requires
            standard_cos_at(96) == -109606,
            standard_sin_at(96) == 1042831,
    ;
    assert(standard_entry_ok(96));
    assert(standard_cos_at(97) * standard_cos_at(97) + standard_sin_at(97)
        * standard_sin_at(97) <= TRIG_SCALE * TRIG_SCALE) by (nonlinear_arith)
        requires
            standard_cos_at(97) == -127789,
            standard_sin_at(97) == 1040760,
    ;
    assert(standard_entry_ok(97));
    assert(standard_cos_at(98) * standard_cos_at(98) + standard_sin_at(98)
        * standard_sin_at(98) <= TRIG_SCALE * TRIG_SCALE) by (nonlinear_arith)
        requires
            standard_cos_at(98) == -145933,
            standard_sin_at(98) == 1038371,
    ;
    assert(standard_entry_ok(98));
    assert(standard_cos_at(99) * standard_cos_at(99) + standard_sin_at(99)
        * standard_sin_at(99) <= TRIG_SCALE * TRIG_SCALE) by (nonlinear_arith)
        requires
            standard_cos_at(99) == -164033,
            standard_sin_at(99) == 1035666,
    ;
    assert(standard_entry_ok(99));
    assert(standard_cos_at(100) * standard_cos_at(100) + standard_sin_at(100)
        * standard_sin_at(100) <= TRIG_SCALE * TRIG_SCALE) by (nonlinear_arith)
        requires
            standard_cos_at(100) == -182083,
            standard_sin_at(100) == 1032645,
    ;
    assert(standard_entry_ok(100));
    assert(standard_cos_at(101) * standard_cos_at(101) + standard_sin_at(101)
        * standard_sin_at(101) <= TRIG_SCALE * TRIG_SCALE) by (nonlinear_arith)
        requires
            standard_cos_at(101) == -200077,
            standard_sin_at(101) == 1029310,
    ;
    assert(standard_entry_ok(101));
    assert(standard_cos_at(102) * standard_cos_at(102) + standard_sin_at(102)
        * standard_sin_at(102) <= TRIG_SCALE * TRIG_SCALE) by (nonlinear_arith)
        requires
            standard_cos_at(102) == -218011,
            standard_sin_at(102) == 1025662,
    ;
    assert(standard_entry_ok(102));
    assert(standard_cos_at(103) * standard_cos_at(103) + standard_sin_at(103)
        * standard_sin_at(103) <= TRIG_SCALE * TRIG_SCALE) by (nonlinear_arith)
        requires
            standard_cos_at(103) == -235878,
            standard_sin_at(103) == 1021701,
    ;
    assert(standard_entry_ok(103));
    assert(standard_cos_at(104) * standard_cos_at(104) + standard_sin_at(104)
        * standard_sin_at(104) <= TRIG_SCALE * TRIG_SCALE) by (nonlinear_arith)
        requires
            standard_cos_at(104) == -253673,
            standard_sin_at(104) == 1017428,
    ;
    assert(standard_entry_ok(104));
    assert(standard_cos_at(105) * standard_cos_at(105) + standard_sin_at(105)
        * standard_sin_at(105) <= TRIG_SCALE * TRIG_SCALE) by (nonlinear_arith)
        requires
            standard_cos_at(105) == -271391,
            standard_sin_at(105) == 1012846,
    ;
    assert(standard_entry_ok(105));
    assert(standard_cos_at(106) * standard_cos_at(106) + standard_sin_at(106)
        * standard_sin_at(106) <= TRIG_SCALE * TRIG_SCALE) by (nonlinear_arith)
        requires
            standard_cos_at(106) == -289026,
            standard_sin_at(106) == 1007955,
    ;
    assert(standard_entry_ok(106));
    assert(standard_cos_at(107) * standard_cos_at(107) + standard_sin_at(107)
        * standard_sin_at(107) <= TRIG_SCALE * TRIG_SCALE) by (nonlinear_arith)
        requires
            standard_cos_at(107) == -306573,
            standard_sin_at(107) == 1002758,
    ;
    assert(standard_entry_ok(107));
    assert(standard_cos_at(108) * standard_cos_at(108) + standard_sin_at(108)
        * standard_sin_at(108) <= TRIG_SCALE * TRIG_SCALE) by (nonlinear_arith)
        requires
            standard_cos_at(108) == -324027,
            standard_sin_at(108) == 997255,
    ;
    assert(standard_entry_ok(108));
    assert(standard_cos_at(109) * standard_cos_at(109) + standard_sin_at(109)
        * standard_sin_at(109) <= TRIG_SCALE * TRIG_SCALE) by (nonlinear_arith)
        requires
            standard_cos_at(109) == -341382,
            standard_sin_at(109) == 991448,
    ;
    assert(standard_entry_ok(109));
    assert(standard_cos_at(110) * standard_cos_at(110) + standard_sin_at(110)
        * standard_sin_at(110) <= TRIG_SCALE * TRIG_SCALE) by (nonlinear_arith)
        requires
            standard_cos_at(110) == -358634,
            standard_sin_at(110) == 985339,
    ;
    assert(standard_entry_ok(110));
    assert(standard_cos_at(111) * standard_cos_at(111) + standard_sin_at(111)
        * standard_sin_at(111) <= TRIG_SCALE * TRIG_SCALE) by (nonlinear_arith)
        requires
            standard_cos_at(111) == -375776,
            standard_sin_at(111) == 978930,
    ;
    assert(standard_entry_ok(111));
    assert(standard_cos_at(112) * standard_cos_at(112) + standard_sin_at(112)
        * standard_sin_at(112) <= TRIG_SCALE * TRIG_SCALE) by (nonlinear_arith)
        requires
            standard_cos_at(112) == -392803,
            standard_sin_at(112) == 972222,
    ;
    assert(standard_entry_ok(112));
    assert(standard_cos_at(113) * standard_cos_at(113) + standard_sin_at(113)
        * standard_sin_at(113) <= TRIG_SCALE * TRIG_SCALE) by (nonlinear_arith)
        requires
            standard_cos_at(113) == -409711,
            standard_sin_at(113) == 965219,
    ;
    assert(standard_entry_ok(113));
    assert(standard_cos_at(114) * standard_cos_at(114) + standard_sin_at(114)
        * standard_sin_at(114) <= TRIG_SCALE * TRIG_SCALE) by (nonlinear_arith)
        requires
            standard_cos_at(114) == -426494,
            standard_sin_at(114) == 957921,
    ;
    assert(standard_entry_ok(114));
    assert(standard_cos_at(115) * standard_cos_at(115) + standard_sin_at(115)
        * standard_sin_at(115) <= TRIG_SCALE * TRIG_SCALE) by (nonlinear_arith)
        requires
            standard_cos_at(115) == -443147,
            standard_sin_at(115) == 950332,
    ;
    assert(standard_entry_ok(115));
    assert(standard_cos_at(116) * standard_cos_at(116) + standard_sin_at(116)
        * standard_sin_at(116) <= TRIG_SCALE * TRIG_SCALE) by (nonlinear_arith)
        requires
            standard_cos_at(116) == -459665,
            standard_sin_at(116) == 942453,
    ;
    assert(standard_entry_ok(116));
    assert(standard_cos_at(117) * standard_cos_at(117) + standard_sin_at(117)
        * standard_sin_at(117) <= TRIG_SCALE * TRIG_SCALE) by (nonlinear_arith)
        requires
            standard_cos_at(117) == -476043,
            standard_sin_at(117) == 934288,
    ;
    assert(standard_entry_ok(117));
    assert(standard_cos_at(118) * standard_cos_at(118) + standard_sin_at(118)
        * standard_sin_at(118) <= TRIG_SCALE * TRIG_SCALE) by (nonlinear_arith)
        requires
            standard_cos_at(118) == -492276,
            standard_sin_at(118) == 925837,
    ;
    assert(standard_entry_ok(118));
    assert(standard_cos_at(119) * standard_cos_at(119) + standard_sin_at(119)
        * standard_sin_at(119) <= TRIG_SCALE * TRIG_SCALE) by (nonlinear_arith)
        requires
            standard_cos_at(119) == -508359,
            standard_sin_at(119) == 917105,
    ;
    assert(standard_entry_ok(119));
    assert(standard_cos_at(120) * standard_cos_at(120) + standard_sin_at(120)
        * standard_sin_at(120) <= TRIG_SCALE * TRIG_SCALE) by (nonlinear_arith)
        requires
            standard_cos_at(120) == -524287,
            standard_sin_at(120) == 908093,
    ;
    assert(standard_entry_ok(120));
    assert(standard_cos_at(121) * standard_cos_at(121) + standard_sin_at(121)
        * standard_sin_at(121) <= TRIG_SCALE * TRIG_SCALE) by (nonlinear_arith)
        requires
            standard_cos_at(121) == -540056,
            standard_sin_at(121) == 898805,
    ;
    assert(standard_entry_ok(121));
    assert(standard_cos_at(122) * standard_cos_at(122) + standard_sin_at(122)
        * standard_sin_at(122) <= TRIG_SCALE * TRIG_SCALE) by (nonlinear_arith)
        requires
            standard_cos_at(122) == -555660,
            standard_sin_at(122) == 889242,
    ;
    assert(standard_entry_ok(122));
    assert(standard_cos_at(123) * standard_cos_at(123) + standard_sin_at(123)
        * standard_sin_at(123) <= TRIG_SCALE * TRIG_SCALE) by (nonlinear_arith)
        requires
            standard_cos_at(123) == -571095,
            standard_sin_at(123) == 879409,
    ;
    assert(standard_entry_ok(123));
    assert(standard_cos_at(124) * standard_cos_at(124) + standard_sin_at(124)
        * standard_sin_at(124) <= TRIG_SCALE * TRIG_SCALE) by (nonlinear_arith)
        requires
            standard_cos_at(124) == -586356,
            standard_sin_at(124) == 869308,
    ;
    assert(standard_entry_ok(124));
    assert(standard_cos_at(125) * standard_cos_at(125) + standard_sin_at(125)
        * standard_sin_at(125) <= TRIG_SCALE * TRIG_SCALE) by (nonlinear_arith)
        requires
            standard_cos_at(125) == -601438,
            standard_sin_at(125) == 858943,
    ;
    assert(standard_entry_ok(125));
    assert(standard_cos_at(126) * standard_cos_at(126) + standard_sin_at(126)
        * standard_sin_at(126) <= TRIG_SCALE * TRIG_SCALE) by (nonlinear_arith)
        requires
            standard_cos_at(126) == -616337,
            standard_sin_at(126) == 848315,
    ;
    assert(standard_entry_ok(126));
    assert(standard_cos_at(127) * standard_cos_at(127) + standard_sin_at(127)
        * standard_sin_at(127) <= TRIG_SCALE * TRIG_SCALE) by (nonlinear_arith)
        requires
            standard_cos_at(127) == -631048,
            standard_sin_at(127) == 837430,
    ;
    assert(standard_entry_ok(127));
    assert(standard_cos_at(128) * standard_cos_at(128) + standard_sin_at(128)
        * standard_sin_at(128) <= TRIG_SCALE * TRIG_SCALE) by (nonlinear_arith)
        requires
            standard_cos_at(128) == -645567,
            standard_sin_at(128) == 826289,
    ;
    assert(standard_entry_ok(128));
    assert(standard_cos_at(129) * standard_cos_at(129) + standard_sin_at(129)
        * standard_sin_at(129) <= TRIG_SCALE * TRIG_SCALE) by (nonlinear_arith)
        requires
            standard_cos_at(129) == -659890,
            standard_sin_at(129) == 814896,
    ;
    assert(standard_entry_ok(129));
    assert(standard_cos_at(130) * standard_cos_at(130) + standard_sin_at(130)
        * standard_sin_at(130) <= TRIG_SCALE * TRIG_SCALE) by (nonlinear_arith)
        requires
            standard_cos_at(130) == -674011,
            standard_sin_at(130) == 803255,
    ;
    assert(standard_entry_ok(130));
    assert(standard_cos_at(131) * standard_cos_at(131) + standard_sin_at(131)
        * standard_sin_at(131) <= TRIG_SCALE * TRIG_SCALE) by (nonlinear_arith)
        requires
            standard_cos_at(131) == -687927,
            standard_sin_at(131) == 791370,
    ;
    assert(standard_entry_ok(131));
    assert(standard_cos_at(132) * standard_cos_at(132) + standard_sin_at(132)
        * standard_sin_at(132) <= TRIG_SCALE * TRIG_SCALE) by (nonlinear_arith)
        requires
            standard_cos_at(132) == -701634,
            standard_sin_at(132) == 779243,
    ;
    assert(standard_entry_ok(132));
    assert(standard_cos_at(133) * standard_cos_at(133) + standard_sin_at(133)
        * standard_sin_at(133) <= TRIG_SCALE * TRIG_SCALE) by (nonlinear_arith)
        requires
            standard_cos_at(133) == -715127,
            standard_sin_at(133) == 766879,
    ;
    assert(standard_entry_ok(133));
    assert(standard_cos_at(134) * standard_cos_at(134) + standard_sin_at(134)
        * standard_sin_at(134) <= TRIG_SCALE * TRIG_SCALE) by (nonlinear_arith)
        requires
            standard_cos_at(134) == -728402,
            standard_sin_at(134) == 754282,
    ;
    assert(standard_entry_ok(134));
    assert(standard_cos_at(135) * standard_cos_at(135) + standard_sin_at(135)
        * standard_sin_at(135) <= TRIG_SCALE * TRIG_SCALE) by (nonlinear_arith)
        requires
            standard_cos_at(135) == -741455,
            standard_sin_at(135) == 741455,
    ;
    assert(standard_entry_ok(135));
    assert(standard_cos_at(136) * standard_cos_at(136) + standard_sin_at(136)
        * standard_sin_at(136) <= TRIG_SCALE * TRIG_SCALE) by (nonlinear_arith)
        requires
            standard_cos_at(136) == -754282,
            standard_sin_at(136) == 728402,
    ;
    assert(standard_entry_ok(136));
    assert(standard_cos_at(137) * standard_cos_at(137) + standard_sin_at(137)
        * standard_sin_at(137) <= TRIG_SCALE * TRIG_SCALE) by (nonlinear_arith)
        requires
            standard_cos_at(137) == -766879,
            standard_sin_at(137) == 715127,
    ;
    assert(standard_entry_ok(137));
    assert(standard_cos_at(138) * standard_cos_at(138) + standard_sin_at(138)
        * standard_sin_at(138) <= TRIG_SCALE * TRIG_SCALE) by (nonlinear_arith)
        requires
            standard_cos_at(138) == -779243,
            standard_sin_at(138) == 701634,
    ;
    assert(standard_entry_ok(138));
    assert(standard_cos_at(139) * standard_cos_at(139) + standard_sin_at(139)
        * standard_sin_at(139) <= TRIG_SCALE * TRIG_SCALE) by (nonlinear_arith)
        requires
            standard_cos_at(139) == -791370,
            standard_sin_at(139) == 687927,
    ;
    assert(standard_entry_ok(139));
    assert(standard_cos_at(140) * standard_cos_at(140) + standard_sin_at(140)
        * standard_sin_at(140) <= TRIG_SCALE * TRIG_SCALE) by (nonlinear_arith)
        requires
            standard_cos_at(140) == -803255,
            standard_sin_at(140) == 674011,
    ;
    assert(standard_entry_ok(140));
    assert(standard_cos_at(141) * standard_cos_at(141) + standard_sin_at(141)
        * standard_sin_at(141) <= TRIG_SCALE * TRIG_SCALE) by (nonlinear_arith)
        requires
            standard_cos_at(141) == -814896,
            standard_sin_at(141) == 659890,
    ;
    assert(standard_entry_ok(141));
    assert(standard_cos_at(142) * standard_cos_at(142) + standard_sin_at(142)
        * standard_sin_at(142) <= TRIG_SCALE * TRIG_SCALE) by (nonlinear_arith)
        requires
            standard_cos_at(142) == -826289,
            standard_sin_at(142) == 645567,
    ;
    assert(standard_entry_ok(142));
    assert(standard_cos_at(143) * standard_cos_at(143) + standard_sin_at(143)
        * standard_sin_at(143) <= TRIG_SCALE * TRIG_SCALE) by (nonlinear_arith)
        requires
            standard_cos_at(143) == -837430,
            standard_sin_at(143) == 631048,
    ;
    assert(standard_entry_ok(143));
    assert(standard_cos_at(144) * standard_cos_at(144) + standard_sin_at(144)
        * standard_sin_at(144) <= TRIG_SCALE * TRIG_SCALE) by (nonlinear_arith)
        requires
            standard_cos_at(144) == -848315,
            standard_sin_at(144) == 616337,
    ;
    assert(standard_entry_ok(144));
    assert(standard_cos_at(145) * standard_cos_at(145) + standard_sin_at(145)
        * standard_sin_at(145) <= TRIG_SCALE * TRIG_SCALE) by (nonlinear_arith)
        requires
            standard_cos_at(145) == -858943,
            standard_sin_at(145) == 601438,
    ;
    assert(standard_entry_ok(145));
    assert(standard_cos_at(146) * standard_cos_at(146) + standard_sin_at(146)
        * standard_sin_at(146) <= TRIG_SCALE * TRIG_SCALE) by (nonlinear_arith)
        requires
            standard_cos_at(146) == -869308,
            standard_sin_at(146) == 586356,
    ;
    assert(standard_entry_ok(146));
    assert(standard_cos_at(147) * standard_cos_at(147) + standard_sin_at(147)
        * standard_sin_at(147) <= TRIG_SCALE * TRIG_SCALE) by (nonlinear_arith)
        requires
            standard_cos_at(147) == -879409,
            standard_sin_at(147) == 571095,
    ;
    assert(standard_entry_ok(147));
    assert(standard_cos_at(148) * standard_cos_at(148) + standard_sin_at(148)
        * standard_sin_at(148) <= TRIG_SCALE * TRIG_SCALE) by (nonlinear_arith)
        requires
            standard_cos_at(148) == -889242,
            standard_sin_at(148) == 555660,
    ;
    assert(standard_entry_ok(148));
    assert(standard_cos_at(149) * standard_cos_at(149) + standard_sin_at(149)
        * standard_sin_at(149) <= TRIG_SCALE * TRIG_SCALE) by (nonlinear_arith)
        requires
            standard_cos_at(149) == -898805,
            standard_sin_at(149) == 540056,
    ;
    assert(standard_entry_ok(149));
    assert(standard_cos_at(150) * standard_cos_at(150) + standard_sin_at(150)
        * standard_sin_at(150) <= TRIG_SCALE * TRIG_SCALE) by (nonlinear_arith)
        requires
            standard_cos_at(150) == -908093,
            standard_sin_at(150) == 524287,
    ;
    assert(standard_entry_ok(150));
    assert(standard_cos_at(151) * standard_cos_at(151) + standard_sin_at(151)
        * standard_sin_at(151) <= TRIG_SCALE * TRIG_SCALE) by (nonlinear_arith)
        requires
            standard_cos_at(151) == -917105,
            standard_sin_at(151) == 508359,
    ;
    assert(standard_entry_ok(151));
    assert(standard_cos_at(152) * standard_cos_at(152) + standard_sin_at(152)
        * standard_sin_at(152) <= TRIG_SCALE * TRIG_SCALE) by (nonlinear_arith)
        requires
            standard_cos_at(152) == -925837,
            standard_sin_at(152) == 492276,
    ;
    assert(standard_entry_ok(152));
    assert(standard_cos_at(153) * standard_cos_at(153) + standard_sin_at(153)
        * standard_sin_at(153) <= TRIG_SCALE * TRIG_SCALE) by (nonlinear_arith)
        requires
            standard_cos_at(153) == -934288,
            standard_sin_at(153) == 476043,
    ;
    assert(standard_entry_ok(153));
    assert(standard_cos_at(154) * standard_cos_at(154) + standard_sin_at(154)
        * standard_sin_at(154) <= TRIG_SCALE * TRIG_SCALE) by (nonlinear_arith)
        requires
            standard_cos_at(154) == -942453,
            standard_sin_at(154) == 459665,
    ;
    assert(standard_entry_ok(154));
    assert(standard_cos_at(155) * standard_cos_at(155) + standard_sin_at(155)
        * standard_sin_at(155) <= TRIG_SCALE * TRIG_SCALE) by (nonlinear_arith)
        requires
            standard_cos_at(155) == -950332,
            standard_sin_at(155) == 443147,
    ;
    assert(standard_entry_ok(155));
    assert(standard_cos_at(156) * standard_cos_at(156) + standard_sin_at(156)
        * standard_sin_at(156) <= TRIG_SCALE * TRIG_SCALE) by (nonlinear_arith)
        requires
            standard_cos_at(156) == -957921,
            standard_sin_at(156) == 426494,
    ;
    assert(standard_entry_ok(156));
    assert(standard_cos_at(157) * standard_cos_at(157) + standard_sin_at(157)
        * standard_sin_at(157) <= TRIG_SCALE * TRIG_SCALE) by (nonlinear_arith)
        requires
            standard_cos_at(157) == -965219,
            standard_sin_at(157) == 409711,
    ;
    assert(standard_entry_ok(157));
    assert(standard_cos_at(158) * standard_cos_at(158) + standard_sin_at(158)
        * standard_sin_at(158) <= TRIG_SCALE * TRIG_SCALE) by (nonlinear_arith)
        requires
            standard_cos_at(158) == -972222,
            standard_sin_at(158) == 392803,
    ;
    assert(standard_entry_ok(158));
    assert(standard_cos_at(159) * standard_cos_at(159) + standard_sin_at(159)
        * standard_sin_at(159) <= TRIG_SCALE * TRIG_SCALE) by (nonlinear_arith)
        requires
            standard_cos_at(159) == -978930,
            standard_sin_at(159) == 375776,
    ;
    assert(standard_entry_ok(159));
    assert(standard_cos_at(160) * standard_cos_at(160) + standard_sin_at(160)
        * standard_sin_at(160) <= TRIG_SCALE * TRIG_SCALE) by (nonlinear_arith)
        requires
            standard_cos_at(160) == -985339,
            standard_sin_at(160) == 358634,
    ;
    assert(standard_entry_ok(160));
    assert(standard_cos_at(161) * standard_cos_at(161) + standard_sin_at(161)
        * standard_sin_at(161) <= TRIG_SCALE * TRIG_SCALE) by (nonlinear_arith)
        requires
            standard_cos_at(161) == -991448,
            standard_sin_at(161) == 341382,
    ;
    assert(standard_entry_ok(161));
    assert(standard_cos_at(162) * standard_cos_at(162) + standard_sin_at(162)
        * standard_sin_at(162) <= TRIG_SCALE * TRIG_SCALE) by (nonlinear_arith)
        requires
            standard_cos_at(162) == -997255,
            standard_sin_at(162) == 324027,
    ;
    assert(standard_entry_ok(162));
    assert(standard_cos_at(163) * standard_cos_at(163) + standard_sin_at(163)
        * standard_sin_at(163) <= TRIG_SCALE * TRIG_SCALE) by (nonlinear_arith)
        requires
            standard_cos_at(163) == -1002758,
            standard_sin_at(163) == 306573,
    ;
    assert(standard_entry_ok(163));
    assert(standard_cos_at(164) * standard_cos_at(164) + standard_sin_at(164)
        * standard_sin_at(164) <= TRIG_SCALE * TRIG_SCALE) by (nonlinear_arith)
        requires
            standard_cos_at(164) == -1007955,
            standard_sin_at(164) == 289026,
    ;
    assert(standard_entry_ok(164));
    assert(standard_cos_at(165) * standard_cos_at(165) + standard_sin_at(165)
        * standard_sin_at(165) <= TRIG_SCALE * TRIG_SCALE) by (nonlinear_arith)
        requires
            standard_cos_at(165) == -1012846,
            standard_sin_at(165) == 271391,
    ;
    assert(standard_entry_ok(165));
    assert(standard_cos_at(166) * standard_cos_at(166) + standard_sin_at(166)
        * standard_sin_at(166) <= TRIG_SCALE * TRIG_SCALE) by (nonlinear_arith)
        requires
            standard_cos_at(166) == -1017428,
            standard_sin_at(166) == 253673,
    ;
    assert(standard_entry_ok(166));
    assert(standard_cos_at(167) * standard_cos_at(167) + standard_sin_at(167)
        * standard_sin_at(167) <= TRIG_SCALE * TRIG_SCALE) by (nonlinear_arith)
        requires
            standard_cos_at(167) == -1021701,
            standard_sin_at(167) == 235878,
    ;
    assert(standard_entry_ok(167));
    assert(standard_cos_at(168) * standard_cos_at(168) + standard_sin_at(168)
        * standard_sin_at(168) <= TRIG_SCALE * TRIG_SCALE) by (nonlinear_arith)
        requires
            standard_cos_at(168) == -1025662,
            standard_sin_at(168) == 218011,
    ;
    assert(standard_entry_ok(168));
    assert(standard_cos_at(169) * standard_cos_at(169) + standard_sin_at(169)
        * standard_sin_at(169) <= TRIG_SCALE * TRIG_SCALE) by (nonlinear_arith)
        requires
            standard_cos_at(169) == -1029310,
            standard_sin_at(169) == 200077,
    ;
    assert(standard_entry_ok(169));
    assert(standard_cos_at(170) * standard_cos_at(170) + standard_sin_at(170)
        * standard_sin_at(170) <= TRIG_SCALE * TRIG_SCALE) by (nonlinear_arith)
        requires
            standard_cos_at(170) == -1032645,
            standard_sin_at(170) == 182083,
    ;
    assert(standard_entry_ok(170));
    assert(standard_cos_at(171) * standard_cos_at(171) + standard_sin_at(171)
        * standard_sin_at(171) <= TRIG_SCALE * TRIG_SCALE) by (nonlinear_arith)
        requires
            standard_cos_at(171) == -1035666,
            standard_sin_at(171) == 164033,
    ;
    assert(standard_entry_ok(171));
    assert(standard_cos_at(172) * standard_cos_at(172) + standard_sin_at(172)
        * standard_sin_at(172) <= TRIG_SCALE * TRIG_SCALE) by (nonlinear_arith)
        requires
            standard_cos_at(172) == -1038371,
            standard_sin_at(172) == 145933,
    ;
    assert(standard_entry_ok(172));
    assert(standard_cos_at(173) * standard_cos_at(173) + standard_sin_at(173)
        * standard_sin_at(173) <= TRIG_SCALE * TRIG_SCALE) by (nonlinear_arith)
        requires
            standard_cos_at(173) == -1040760,
            standard_sin_at(173) == 127789,
    ;
    assert(standard_entry_ok(173));
    assert(standard_cos_at(174) * standard_cos_at(174) + standard_sin_at(174)
        * standard_sin_at(174) <= TRIG_SCALE * TRIG_SCALE) by (nonlinear_arith)
        requires
            standard_cos_at(174) == -1042831,
            standard_sin_at(174) == 109606,
    ;
    assert(standard_entry_ok(174));
    assert(standard_cos_at(175) * standard_cos_at(175) + standard_sin_at(175)
        * standard_sin_at(175) <= TRIG_SCALE * TRIG_SCALE) by (nonlinear_arith)
        requires
            standard_cos_at(175) == -1044585,
            standard_sin_at(175) == 91389,
    ;
    assert(standard_entry_ok(175));
    assert(standard_cos_at(176) * standard_cos_at(176) + standard_sin_at(176)
        * standard_sin_at(176) <= TRIG_SCALE * TRIG_SCALE) by (nonlinear_arith)
        requires
            standard_cos_at(176) == -1046021,
            standard_sin_at(176) == 73144,
    ;
    assert(standard_entry_ok(176));
    assert(standard_cos_at(177) * standard_cos_at(177) + standard_sin_at(177)
        * standard_sin_at(177) <= TRIG_SCALE * TRIG_SCALE) by (nonlinear_arith)
        requires
            standard_cos_at(177) == -1047138,
            standard_sin_at(177) == 54878,
    ;
    assert(standard_entry_ok(177));
    assert(standard_cos_at(178) * standard_cos_at(178) + standard_sin_at(178)
        * standard_sin_at(178) <= TRIG_SCALE * TRIG_SCALE) by (nonlinear_arith)
        requires
            standard_cos_at(178) == -1047937,
            standard_sin_at(178) == 36594,
    ;
    assert(standard_entry_ok(178));
    assert(standard_cos_at(179) * standard_cos_at(179) + standard_sin_at(179)
        * standard_sin_at(179) <= TRIG_SCALE * TRIG_SCALE) by (nonlinear_arith)
        requires
            standard_cos_at(179) == -1048416,
            standard_sin_at(179) == 18300,
    ;
    assert(standard_entry_ok(179));
    assert forall|t: int| 0 <= t < 180 implies #[trigger] standard_entry_ok(t) by {}
    assert forall|t: int|
        0 <= t < 180 implies -TRIG_SCALE <= #[trigger] standard_cos()[t] <= TRIG_SCALE by {
        assert(standard_entry_ok(t));
    }
    assert forall|t: int|
        0 <= t < 180 implies -TRIG_SCALE <= #[trigger] standard_sin()[t] <= TRIG_SCALE by {
        assert(standard_entry_ok(t));
    }
    assert forall|t: int|
        0 <= t < 180 implies (#[trigger] standard_cos()[t]) * standard_cos()[t]
        + standard_sin()[t] * standard_sin()[t] <= TRIG_SCALE * TRIG_SCALE by {
        assert(standard_entry_ok(t));
    }
    assert forall|t: int| 1 <= t < 180 implies #[trigger] standard_sin()[t] >= 1 by {
        assert(standard_entry_ok(t));
    }
}

/// One intended cosine entry, as executable code.
fn standard_cos_entry(t: usize) -> (r: i64)
    requires
        t < 180,
    ensures
        r == standard_cos_at(t as int),
{
    match t {
        0 => 1048576,
        1 => 1048416,
        2 => 1047937,
        3 => 1047138,
        4 => 1046021,
        5 => 1044585,
        6 => 1042831,
        7 => 1040760,
        8 => 1038371,
        9 => 1035666,
        10 => 1032645,
        11 => 1029310,
        12 => 1025662,
        13 => 1021701,
        14 => 1017428,
        15 => 1012846,
        16 => 1007955,
        17 => 1002758,
        18 => 997255,
        19 => 991448,
        20 => 985339,
        21 => 978930,
        22 => 972222,
        23 => 965219,
        24 => 957921,
        25 => 950332,
        26 => 942453,
        27 => 934288,
        28 => 925837,
        29 => 917105,
        30 => 908093,
        31 => 898805,
        32 => 889242,
        33 => 879409,
        34 => 869308,
        35 => 858943,
        36 => 848315,
        37 => 837430,
        38 => 826289,
        39 => 814896,
        40 => 803255,
        41 => 791370,
        42 => 779243,
        43 => 766879,
        44 => 754282,
        45 => 741455,
        46 => 728402,
        47 => 715127,
        48 => 701634,
        49 => 687927,
        50 => 674011,
        51 => 659890,
        52 => 645567,
        53 => 631048,
        54 => 616337,
        55 => 601438,
        56 => 586356,
        57 => 571095,
        58 => 555660,
        59 => 540056,
        60 => 524288,
        61 => 508359,
        62 => 492276,
        63 => 476043,
        64 => 459665,
        65 => 443147,
        66 => 426494,
        67 => 409711,
        68 => 392803,
        69 => 375776,
        70 => 358634,
        71 => 341382,
        72 => 324027,
        73 => 306573,
        74 => 289026,
        75 => 271391,
        76 => 253673,
        77 => 235878,
        78 => 218011,
        79 => 200077,
        80 => 182083,
        81 => 164033,
        82 => 145933,
        83 => 127789,
        84 => 109606,
        85 => 91389,
        86 => 73144,
        87 => 54878,
        88 => 36594,
        89 => 18300,
        90 => 0,
        91 => -18300,
        92 => -36594,
        93 => -54878,
        94 => -73144,
        95 => -91389,
        96 => -109606,
        97 => -127789,
        98 => -145933,
        99 => -164033,
        100 => -182083,
        101 => -200077,
        102 => -218011,
        103 => -235878,
        104 => -253673,
        105 => -271391,
        106 => -289026,
        107 => -306573,
        108 => -324027,
        109 => -341382,
        110 => -358634,
        111 => -375776,
        112 => -392803,
        113 => -409711,
        114 => -426494,
        115 => -443147,
        116 => -459665,
        117 => -476043,
        118 => -492276,
        119 => -508359,
        120 => -524287,
        121 => -540056,
        122 => -555660,
        123 => -571095,
        124 => -586356,
        125 => -601438,
        126 => -616337,
        127 => -631048,
        128 => -645567,
        129 => -659890,
        130 => -674011,
        131 => -687927,
        132 => -701634,
        133 => -715127,
        134 => -728402,
        135 => -741455,
        136 => -754282,
        137 => -766879,
        138 => -779243,
        139 => -791370,
        140 => -803255,
        141 => -814896,
        142 => -826289,
        143 => -837430,
        144 => -848315,
        145 => -858943,
        146 => -869308,
        147 => -879409,
        148 => -889242,
        149 => -898805,
        150 => -908093,
        151 => -917105,
        152 => -925837,
        153 => -934288,
        154 => -942453,
        155 => -950332,
        156 => -957921,
        157 => -965219,
        158 => -972222,
        159 => -978930,
        160 => -985339,
        161 => -991448,
        162 => -997255,
        163 => -1002758,
        164 => -1007955,
        165 => -1012846,
        166 => -1017428,
        167 => -1021701,
        168 => -1025662,
        169 => -1029310,
        170 => -1032645,
        171 => -1035666,
        172 => -1038371,
        173 => -1040760,
        174 => -1042831,
        175 => -1044585,
        176 => -1046021,
        177 => -1047138,
        178 => -1047937,
        _ => -1048416,
    }
}

/// One intended sine entry, as executable code.
fn standard_sin_entry(t: usize) -> (r: i64)
    requires
        t < 180,
    ensures
        r == standard_sin_at(t as int),
{
    match t {
        0 => 0,
        1 => 18300,
        2 => 36594,
        3 => 54878,
        4 => 73144,
        5 => 91389,
        6 => 109606,
        7 => 127789,
        8 => 145933,
        9 => 164033,
        10 => 182083,
        11 => 200077,
        12 => 218011,
        13 => 235878,
        14 => 253673,
        15 => 271391,
        16 => 289026,
        17 => 306573,
        18 => 324027,
        19 => 341382,
        20 => 358634,
        21 => 375776,
        22 => 392803,
        23 => 409711,
        24 => 426494,
        25 => 443147,
        26 => 459665,
        27 => 476043,
        28 => 492276,
        29 => 508359,
        30 => 524287,
        31 => 540056,
        32 => 555660,
        33 => 571095,
        34 => 586356,
        35 => 601438,
        36 => 616337,
        37 => 631048,
        38 => 645567,
        39 => 659890,
        40 => 674011,
        41 => 687927,
        42 => 701634,
        43 => 715127,
        44 => 728402,
        45 => 741455,
        46 => 754282,
        47 => 766879,
        48 => 779243,
        49 => 791370,
        50 => 803255,
        51 => 814896,
        52 => 826289,
        53 => 837430,
        54 => 848315,
        55 => 858943,
        56 => 869308,
        57 => 879409,
        58 => 889242,
        59 => 898805,
        60 => 908093,
        61 => 917105,
        62 => 925837,
        63 => 934288,
        64 => 942453,
        65 => 950332,
        66 => 957921,
        67 => 965219,
        68 => 972222,
        69 => 978930,
        70 => 985339,
        71 => 991448,
        72 => 997255,
        73 => 1002758,
        74 => 1007955,
        75 => 1012846,
        76 => 1017428,
        77 => 1021701,
        78 => 1025662,
        79 => 1029310,
        80 => 1032645,
        81 => 1035666,
        82 => 1038371,
        83 => 1040760,
        84 => 1042831,
        85 => 1044585,
        86 => 1046021,
        87 => 1047138,
        88 => 1047937,
        89 => 1048416,
        90 => 1048576,
        91 => 1048416,
        92 => 1047937,
        93 => 1047138,
        94 => 1046021,
        95 => 1044585,
        96 => 1042831,
        97 => 1040760,
        98 => 1038371,
        99 => 1035666,
        100 => 1032645,
        101 => 1029310,
        102 => 1025662,
        103 => 1021701,
        104 => 1017428,
        105 => 1012846,
        106 => 1007955,
        107 => 1002758,
        108 => 997255,
        109 => 991448,
        110 => 985339,
        111 => 978930,
        112 => 972222,
        113 => 965219,
        114 => 957921,
        115 => 950332,
        116 => 942453,
        117 => 934288,
        118 => 925837,
        119 => 917105,
        120 => 908093,
        121 => 898805,
        122 => 889242,
        123 => 879409,
        124 => 869308,
        125 => 858943,
        126 => 848315,
        127 => 837430,
        128 => 826289,
        129 => 814896,
        130 => 803255,
        131 => 791370,
        132 => 779243,
        133 => 766879,
        134 => 754282,
        135 => 741455,
        136 => 728402,
        137 => 715127,
        138 => 701634,
        139 => 687927,
        140 => 674011,
        141 => 659890,
        142 => 645567,
        143 => 631048,
        144 => 616337,
        145 => 601438,
        146 => 586356,
        147 => 571095,
        148 => 555660,
        149 => 540056,
        150 => 524287,
        151 => 508359,
        152 => 492276,
        153 => 476043,
        154 => 459665,
        155 => 443147,
        156 => 426494,
        157 => 409711,
        158 => 392803,
        159 => 375776,
        160 => 358634,
        161 => 341382,
        162 => 324027,
        163 => 306573,
        164 => 289026,
        165 => 271391,
        166 => 253673,
        167 => 235878,
        168 => 218011,
        169 => 200077,
        170 => 182083,
        171 => 164033,
        172 => 145933,
        173 => 127789,
        174 => 109606,
        175 => 91389,
        176 => 73144,
        177 => 54878,
        178 => 36594,
        _ => 18300,
    }
}

} // verus!
