use vstd::prelude::*;

verus! {

/// Entries 0 to 31 of `sf_table`.
pub open spec fn sf_part_0() -> Seq<i64> {
    seq![
        536870912i64, 426114725i64, 338207482i64, 268435456i64, 213057363i64, 169103741i64, 134217728i64, 106528681i64,
        84551870i64, 67108864i64, 53264341i64, 42275935i64, 33554432i64, 26632170i64, 21137968i64, 16777216i64,
        13316085i64, 10568984i64, 8388608i64, 6658043i64, 5284492i64, 4194304i64, 3329021i64, 2642246i64,
        2097152i64, 1664511i64, 1321123i64, 1048576i64, 832255i64, 660561i64, 524288i64, 416128i64,
    ]
}

/// Entries 32 to 62 of `sf_table`.
pub open spec fn sf_part_1() -> Seq<i64> {
    seq![
        330281i64, 262144i64, 208064i64, 165140i64, 131072i64, 104032i64, 82570i64, 65536i64,
        52016i64, 41285i64, 32768i64, 26008i64, 20643i64, 16384i64, 13004i64, 10321i64,
        8192i64, 6502i64, 5161i64, 4096i64, 3251i64, 2580i64, 2048i64, 1625i64,
        1290i64, 1024i64, 813i64, 645i64, 512i64, 406i64, 323i64,
    ]
}

/// Scalefactor magnitudes, 28-bit fixed point, largest first.
#[verifier::opaque]
pub open spec fn sf_table() -> Seq<i64> {
    sf_part_0() + sf_part_1()
}

/// Scalefactor magnitudes, 28-bit fixed point, largest first.
pub fn scalefactors() -> (r: Vec<i64>)
    ensures
        r@ == sf_table(),
        r@.len() == 63,
{
    let mut r: Vec<i64> = Vec::new();
    r.extend_from_slice(
        &[
            536870912, 426114725, 338207482, 268435456, 213057363, 169103741, 134217728, 106528681,
            84551870, 67108864, 53264341, 42275935, 33554432, 26632170, 21137968, 16777216,
            13316085, 10568984, 8388608, 6658043, 5284492, 4194304, 3329021, 2642246,
            2097152, 1664511, 1321123, 1048576, 832255, 660561, 524288, 416128,
        ],
    );
    r.extend_from_slice(
        &[
            330281, 262144, 208064, 165140, 131072, 104032, 82570, 65536,
            52016, 41285, 32768, 26008, 20643, 16384, 13004, 10321,
            8192, 6502, 5161, 4096, 3251, 2580, 2048, 1625,
            1290, 1024, 813, 645, 512, 406, 323,
        ],
    );
    proof {
        reveal(sf_table);
    }
    assert(r@ =~= sf_table());
    r
}

/// Entries 0 to 31 of `isf_table`.
pub open spec fn isf_part_0() -> Seq<i64> {
    seq![
        134217728i64, 169103740i64, 213057362i64, 268435456i64, 338207480i64, 426114724i64, 536870912i64, 676414965i64,
        852229454i64, 1073741824i64, 1352829917i64, 1704458908i64, 2147483648i64, 2705659885i64, 3408917736i64, 4294967296i64,
        5411319771i64, 6817835473i64, 8589934592i64, 10822638730i64, 13635670947i64, 17179869184i64, 21645280711i64, 27271341895i64,
        34359738368i64, 43290548418i64, 54542683790i64, 68719476736i64, 86581148852i64, 109085450152i64, 137438953472i64, 173162089640i64,
    ]
}

/// Entries 32 to 62 of `isf_table`.
pub open spec fn isf_part_1() -> Seq<i64> {
    seq![
        218170570023i64, 274877906944i64, 346324179281i64, 436342461171i64, 549755813888i64, 692648358562i64, 872684922343i64, 1099511627776i64,
        1385296717124i64, 1745369844687i64, 2199023255552i64, 2770593434248i64, 3490655139172i64, 4398046511104i64, 5541186868496i64, 6981648487348i64,
        8796093022208i64, 11082373736992i64, 13961944204210i64, 17592186044416i64, 22164747473985i64, 27929300014700i64, 35184372088832i64, 44343134792571i64,
        55858600029401i64, 70368744177664i64, 88631726983921i64, 111717200058803i64, 140737488355328i64, 177481758714108i64, 223088526433213i64,
    ]
}

/// The inverses of the scalefactors, 28-bit fixed point.
#[verifier::opaque]
pub open spec fn isf_table() -> Seq<i64> {
    isf_part_0() + isf_part_1()
}

/// The inverses of the scalefactors, 28-bit fixed point.
pub fn inverse_scalefactors() -> (r: Vec<i64>)
    ensures
        r@ == isf_table(),
        r@.len() == 63,
{
    let mut r: Vec<i64> = Vec::new();
    r.extend_from_slice(
        &[
            134217728, 169103740, 213057362, 268435456, 338207480, 426114724, 536870912, 676414965,
            852229454, 1073741824, 1352829917, 1704458908, 2147483648, 2705659885, 3408917736, 4294967296,
            5411319771, 6817835473, 8589934592, 10822638730, 13635670947, 17179869184, 21645280711, 27271341895,
            34359738368, 43290548418, 54542683790, 68719476736, 86581148852, 109085450152, 137438953472, 173162089640,
        ],
    );
    r.extend_from_slice(
        &[
            218170570023, 274877906944, 346324179281, 436342461171, 549755813888, 692648358562, 872684922343, 1099511627776,
            1385296717124, 1745369844687, 2199023255552, 2770593434248, 3490655139172, 4398046511104, 5541186868496, 6981648487348,
            8796093022208, 11082373736992, 13961944204210, 17592186044416, 22164747473985, 27929300014700, 35184372088832, 44343134792571,
            55858600029401, 70368744177664, 88631726983921, 111717200058803, 140737488355328, 177481758714108, 223088526433213,
        ],
    );
    proof {
        reveal(isf_table);
    }
    assert(r@ =~= isf_table());
    r
}

/// Entries 0 to 31 of `synthesis_window_table`.
pub open spec fn d_part_0() -> Seq<i64> {
    seq![
        0i64, 0i64, 0i64, 0i64, 0i64, 0i64, 0i64, -4096i64,
        -4096i64, -4096i64, -4096i64, -8192i64, -8192i64, -12288i64, -12288i64, -16384i64,
        -16384i64, -20480i64, -24576i64, -24576i64, -28672i64, -32768i64, -36864i64, -40960i64,
        -49152i64, -53248i64, -61440i64, -65536i64, -73728i64, -81920i64, -94208i64, -102400i64,
    ]
}

/// Entries 32 to 63 of `synthesis_window_table`.
pub open spec fn d_part_1() -> Seq<i64> {
    seq![
        -114688i64, -122880i64, -139264i64, -151552i64, -163840i64, -180224i64, -196608i64, -212992i64,
        -233472i64, -253952i64, -274432i64, -294912i64, -319488i64, -344064i64, -368640i64, -393216i64,
        -421888i64, -450560i64, -475136i64, -507904i64, -536576i64, -565248i64, -598016i64, -626688i64,
        -655360i64, -688128i64, -716800i64, -745472i64, -774144i64, -798720i64, -823296i64, -847872i64,
    ]
}

/// Entries 64 to 95 of `synthesis_window_table`.
pub open spec fn d_part_2() -> Seq<i64> {
    seq![
        872448i64, 892928i64, 909312i64, 921600i64, 929792i64, 933888i64, 933888i64, 929792i64,
        917504i64, 905216i64, 880640i64, 851968i64, 819200i64, 774144i64, 724992i64, 667648i64,
        598016i64, 520192i64, 434176i64, 339968i64, 233472i64, 118784i64, -4096i64, -143360i64,
        -290816i64, -450560i64, -622592i64, -802816i64, -995328i64, -1200128i64, -1417216i64, -1638400i64,
    ]
}

/// Entries 96 to 127 of `synthesis_window_table`.
pub open spec fn d_part_3() -> Seq<i64> {
    seq![
        -1875968i64, -2121728i64, -2375680i64, -2637824i64, -2908160i64, -3186688i64, -3469312i64, -3760128i64,
        -4055040i64, -4354048i64, -4653056i64, -4952064i64, -5251072i64, -5550080i64, -5844992i64, -6131712i64,
        -6414336i64, -6688768i64, -6950912i64, -7200768i64, -7438336i64, -7655424i64, -7856128i64, -8032256i64,
        -8192000i64, -8318976i64, -8421376i64, -8495104i64, -8536064i64, -8544256i64, -8515584i64, -8445952i64,
    ]
}

/// Entries 128 to 159 of `synthesis_window_table`.
pub open spec fn d_part_4() -> Seq<i64> {
    seq![
        8343552i64, 8192000i64, 7995392i64, 7753728i64, 7462912i64, 7122944i64, 6733824i64, 6287360i64,
        5791744i64, 5242880i64, 4632576i64, 3973120i64, 3252224i64, 2478080i64, 1646592i64, 757760i64,
        -180224i64, -1175552i64, -2228224i64, -3330048i64, -4481024i64, -5681152i64, -6926336i64, -8212480i64,
        -9539584i64, -10903552i64, -12300288i64, -13721600i64, -15171584i64, -16637952i64, -18120704i64, -19607552i64,
    ]
}

/// Entries 160 to 191 of `synthesis_window_table`.
pub open spec fn d_part_5() -> Seq<i64> {
    seq![
        -21102592i64, -22593536i64, -24076288i64, -25542656i64, -26984448i64, -28401664i64, -29777920i64, -31113216i64,
        -32395264i64, -33619968i64, -34775040i64, -35856384i64, -36851712i64, -37756928i64, -38563840i64, -39256064i64,
        -39837696i64, -40292352i64, -40611840i64, -40787968i64, -40816640i64, -40689664i64, -40394752i64, -39931904i64,
        -39284736i64, -38453248i64, -37429248i64, -36204544i64, -34779136i64, -33140736i64, -31289344i64, -29216768i64,
    ]
}

/// Entries 192 to 223 of `synthesis_window_table`.
pub open spec fn d_part_6() -> Seq<i64> {
    seq![
        26927104i64, 24408064i64, 21659648i64, 18681856i64, 15466496i64, 12021760i64, 8343552i64, 4431872i64,
        286720i64, -4083712i64, -8687616i64, -13512704i64, -18563072i64, -23826432i64, -29298688i64, -34975744i64,
        -40853504i64, -46915584i64, -53161984i64, -59584512i64, -66166784i64, -72900608i64, -79777792i64, -86786048i64,
        -93913088i64, -101142528i64, -108466176i64, -115867648i64, -123334656i64, -130850816i64, -138403840i64, -145977344i64,
    ]
}

/// Entries 224 to 255 of `synthesis_window_table`.
pub open spec fn d_part_7() -> Seq<i64> {
    seq![
        -153550848i64, -161116160i64, -168652800i64, -176148480i64, -183582720i64, -190939136i64, -198201344i64, -205357056i64,
        -212385792i64, -219271168i64, -226004992i64, -232558592i64, -238927872i64, -245092352i64, -251035648i64, -256749568i64,
        -262217728i64, -267423744i64, -272355328i64, -277004288i64, -281358336i64, -285401088i64, -289132544i64, -292532224i64,
        -295600128i64, -298328064i64, -300703744i64, -302723072i64, -304381952i64, -305680384i64, -306606080i64, -307163136i64,
    ]
}

/// Entries 256 to 287 of `synthesis_window_table`.
pub open spec fn d_part_8() -> Seq<i64> {
    seq![
        307355648i64, 307167232i64, 306610176i64, 305684480i64, 304386048i64, 302727168i64, 300707840i64, 298332160i64,
        295604224i64, 292536320i64, 289136640i64, 285405184i64, 281362432i64, 277008384i64, 272359424i64, 267427840i64,
        262221824i64, 256753664i64, 251039744i64, 245096448i64, 238931968i64, 232562688i64, 226009088i64, 219275264i64,
        212389888i64, 205361152i64, 198205440i64, 190943232i64, 183586816i64, 176152576i64, 168656896i64, 161120256i64,
    ]
}

/// Entries 288 to 319 of `synthesis_window_table`.
pub open spec fn d_part_9() -> Seq<i64> {
    seq![
        153554944i64, 145981440i64, 138407936i64, 130854912i64, 123338752i64, 115871744i64, 108470272i64, 101146624i64,
        93917184i64, 86790144i64, 79781888i64, 72904704i64, 66170880i64, 59588608i64, 53166080i64, 46919680i64,
        40857600i64, 34979840i64, 29302784i64, 23830528i64, 18567168i64, 13516800i64, 8691712i64, 4087808i64,
        -282624i64, -4427776i64, -8339456i64, -12017664i64, -15462400i64, -18677760i64, -21655552i64, -24403968i64,
    ]
}

/// Entries 320 to 351 of `synthesis_window_table`.
pub open spec fn d_part_10() -> Seq<i64> {
    seq![
        26927104i64, 29220864i64, 31293440i64, 33144832i64, 34783232i64, 36208640i64, 37433344i64, 38457344i64,
        39288832i64, 39936000i64, 40398848i64, 40693760i64, 40820736i64, 40792064i64, 40615936i64, 40296448i64,
        39841792i64, 39260160i64, 38567936i64, 37761024i64, 36855808i64, 35860480i64, 34779136i64, 33624064i64,
        32399360i64, 31117312i64, 29782016i64, 28405760i64, 26988544i64, 25546752i64, 24080384i64, 22597632i64,
    ]
}

/// Entries 352 to 383 of `synthesis_window_table`.
pub open spec fn d_part_11() -> Seq<i64> {
    seq![
        21106688i64, 19611648i64, 18124800i64, 16642048i64, 15175680i64, 13725696i64, 12304384i64, 10907648i64,
        9543680i64, 8216576i64, 6930432i64, 5685248i64, 4485120i64, 3334144i64, 2232320i64, 1179648i64,
        184320i64, -753664i64, -1642496i64, -2473984i64, -3248128i64, -3969024i64, -4628480i64, -5238784i64,
        -5787648i64, -6283264i64, -6729728i64, -7118848i64, -7458816i64, -7749632i64, -7991296i64, -8187904i64,
    ]
}

/// Entries 384 to 415 of `synthesis_window_table`.
pub open spec fn d_part_12() -> Seq<i64> {
    seq![
        8343552i64, 8450048i64, 8519680i64, 8548352i64, 8540160i64, 8499200i64, 8425472i64, 8323072i64,
        8196096i64, 8036352i64, 7860224i64, 7659520i64, 7442432i64, 7204864i64, 6955008i64, 6692864i64,
        6418432i64, 6135808i64, 5849088i64, 5554176i64, 5255168i64, 4956160i64, 4657152i64, 4358144i64,
        4059136i64, 3764224i64, 3473408i64, 3190784i64, 2912256i64, 2641920i64, 2379776i64, 2125824i64,
    ]
}

/// Entries 416 to 447 of `synthesis_window_table`.
pub open spec fn d_part_13() -> Seq<i64> {
    seq![
        1880064i64, 1642496i64, 1421312i64, 1204224i64, 999424i64, 806912i64, 626688i64, 454656i64,
        294912i64, 147456i64, 8192i64, -114688i64, -229376i64, -335872i64, -430080i64, -516096i64,
        -593920i64, -663552i64, -720896i64, -770048i64, -815104i64, -847872i64, -876544i64, -901120i64,
        -913408i64, -925696i64, -929792i64, -929792i64, -925696i64, -917504i64, -905216i64, -888832i64,
    ]
}

/// Entries 448 to 479 of `synthesis_window_table`.
pub open spec fn d_part_14() -> Seq<i64> {
    seq![
        872448i64, 851968i64, 827392i64, 802816i64, 778240i64, 749568i64, 720896i64, 692224i64,
        659456i64, 630784i64, 602112i64, 569344i64, 540672i64, 512000i64, 479232i64, 454656i64,
        425984i64, 397312i64, 372736i64, 348160i64, 323584i64, 299008i64, 278528i64, 258048i64,
        237568i64, 217088i64, 200704i64, 184320i64, 167936i64, 155648i64, 143360i64, 126976i64,
    ]
}

/// Entries 480 to 511 of `synthesis_window_table`.
pub open spec fn d_part_15() -> Seq<i64> {
    seq![
        118784i64, 106496i64, 98304i64, 86016i64, 77824i64, 69632i64, 65536i64, 57344i64,
        53248i64, 45056i64, 40960i64, 36864i64, 32768i64, 28672i64, 28672i64, 24576i64,
        20480i64, 20480i64, 16384i64, 16384i64, 12288i64, 12288i64, 8192i64, 8192i64,
        8192i64, 8192i64, 4096i64, 4096i64, 4096i64, 4096i64, 4096i64, 4096i64,
    ]
}

/// The synthesis window, 28-bit fixed point.
#[verifier::opaque]
pub open spec fn synthesis_window_table() -> Seq<i64> {
    d_part_0() + d_part_1() + d_part_2() + d_part_3() + d_part_4() + d_part_5() + d_part_6() + d_part_7() + d_part_8() + d_part_9() + d_part_10() + d_part_11() + d_part_12() + d_part_13() + d_part_14() + d_part_15()
}

/// The synthesis window, 28-bit fixed point.
pub fn synthesis_window() -> (r: Vec<i64>)
    ensures
        r@ == synthesis_window_table(),
        r@.len() == 512,
{
    let mut r: Vec<i64> = Vec::new();
    r.extend_from_slice(
        &[
            0, 0, 0, 0, 0, 0, 0, -4096,
            -4096, -4096, -4096, -8192, -8192, -12288, -12288, -16384,
            -16384, -20480, -24576, -24576, -28672, -32768, -36864, -40960,
            -49152, -53248, -61440, -65536, -73728, -81920, -94208, -102400,
        ],
    );
    r.extend_from_slice(
        &[
            -114688, -122880, -139264, -151552, -163840, -180224, -196608, -212992,
            -233472, -253952, -274432, -294912, -319488, -344064, -368640, -393216,
            -421888, -450560, -475136, -507904, -536576, -565248, -598016, -626688,
            -655360, -688128, -716800, -745472, -774144, -798720, -823296, -847872,
        ],
    );
    r.extend_from_slice(
        &[
            872448, 892928, 909312, 921600, 929792, 933888, 933888, 929792,
            917504, 905216, 880640, 851968, 819200, 774144, 724992, 667648,
            598016, 520192, 434176, 339968, 233472, 118784, -4096, -143360,
            -290816, -450560, -622592, -802816, -995328, -1200128, -1417216, -1638400,
        ],
    );
    r.extend_from_slice(
        &[
            -1875968, -2121728, -2375680, -2637824, -2908160, -3186688, -3469312, -3760128,
            -4055040, -4354048, -4653056, -4952064, -5251072, -5550080, -5844992, -6131712,
            -6414336, -6688768, -6950912, -7200768, -7438336, -7655424, -7856128, -8032256,
            -8192000, -8318976, -8421376, -8495104, -8536064, -8544256, -8515584, -8445952,
        ],
    );
    r.extend_from_slice(
        &[
            8343552, 8192000, 7995392, 7753728, 7462912, 7122944, 6733824, 6287360,
            5791744, 5242880, 4632576, 3973120, 3252224, 2478080, 1646592, 757760,
            -180224, -1175552, -2228224, -3330048, -4481024, -5681152, -6926336, -8212480,
            -9539584, -10903552, -12300288, -13721600, -15171584, -16637952, -18120704, -19607552,
        ],
    );
    r.extend_from_slice(
        &[
            -21102592, -22593536, -24076288, -25542656, -26984448, -28401664, -29777920, -31113216,
            -32395264, -33619968, -34775040, -35856384, -36851712, -37756928, -38563840, -39256064,
            -39837696, -40292352, -40611840, -40787968, -40816640, -40689664, -40394752, -39931904,
            -39284736, -38453248, -37429248, -36204544, -34779136, -33140736, -31289344, -29216768,
        ],
    );
    r.extend_from_slice(
        &[
            26927104, 24408064, 21659648, 18681856, 15466496, 12021760, 8343552, 4431872,
            286720, -4083712, -8687616, -13512704, -18563072, -23826432, -29298688, -34975744,
            -40853504, -46915584, -53161984, -59584512, -66166784, -72900608, -79777792, -86786048,
            -93913088, -101142528, -108466176, -115867648, -123334656, -130850816, -138403840, -145977344,
        ],
    );
    r.extend_from_slice(
        &[
            -153550848, -161116160, -168652800, -176148480, -183582720, -190939136, -198201344, -205357056,
            -212385792, -219271168, -226004992, -232558592, -238927872, -245092352, -251035648, -256749568,
            -262217728, -267423744, -272355328, -277004288, -281358336, -285401088, -289132544, -292532224,
            -295600128, -298328064, -300703744, -302723072, -304381952, -305680384, -306606080, -307163136,
        ],
    );
    r.extend_from_slice(
        &[
            307355648, 307167232, 306610176, 305684480, 304386048, 302727168, 300707840, 298332160,
            295604224, 292536320, 289136640, 285405184, 281362432, 277008384, 272359424, 267427840,
            262221824, 256753664, 251039744, 245096448, 238931968, 232562688, 226009088, 219275264,
            212389888, 205361152, 198205440, 190943232, 183586816, 176152576, 168656896, 161120256,
        ],
    );
    r.extend_from_slice(
        &[
            153554944, 145981440, 138407936, 130854912, 123338752, 115871744, 108470272, 101146624,
            93917184, 86790144, 79781888, 72904704, 66170880, 59588608, 53166080, 46919680,
            40857600, 34979840, 29302784, 23830528, 18567168, 13516800, 8691712, 4087808,
            -282624, -4427776, -8339456, -12017664, -15462400, -18677760, -21655552, -24403968,
        ],
    );
    r.extend_from_slice(
        &[
            26927104, 29220864, 31293440, 33144832, 34783232, 36208640, 37433344, 38457344,
            39288832, 39936000, 40398848, 40693760, 40820736, 40792064, 40615936, 40296448,
            39841792, 39260160, 38567936, 37761024, 36855808, 35860480, 34779136, 33624064,
            32399360, 31117312, 29782016, 28405760, 26988544, 25546752, 24080384, 22597632,
        ],
    );
    r.extend_from_slice(
        &[
            21106688, 19611648, 18124800, 16642048, 15175680, 13725696, 12304384, 10907648,
            9543680, 8216576, 6930432, 5685248, 4485120, 3334144, 2232320, 1179648,
            184320, -753664, -1642496, -2473984, -3248128, -3969024, -4628480, -5238784,
            -5787648, -6283264, -6729728, -7118848, -7458816, -7749632, -7991296, -8187904,
        ],
    );
    r.extend_from_slice(
        &[
            8343552, 8450048, 8519680, 8548352, 8540160, 8499200, 8425472, 8323072,
            8196096, 8036352, 7860224, 7659520, 7442432, 7204864, 6955008, 6692864,
            6418432, 6135808, 5849088, 5554176, 5255168, 4956160, 4657152, 4358144,
            4059136, 3764224, 3473408, 3190784, 2912256, 2641920, 2379776, 2125824,
        ],
    );
    r.extend_from_slice(
        &[
            1880064, 1642496, 1421312, 1204224, 999424, 806912, 626688, 454656,
            294912, 147456, 8192, -114688, -229376, -335872, -430080, -516096,
            -593920, -663552, -720896, -770048, -815104, -847872, -876544, -901120,
            -913408, -925696, -929792, -929792, -925696, -917504, -905216, -888832,
        ],
    );
    r.extend_from_slice(
        &[
            872448, 851968, 827392, 802816, 778240, 749568, 720896, 692224,
            659456, 630784, 602112, 569344, 540672, 512000, 479232, 454656,
            425984, 397312, 372736, 348160, 323584, 299008, 278528, 258048,
            237568, 217088, 200704, 184320, 167936, 155648, 143360, 126976,
        ],
    );
    r.extend_from_slice(
        &[
            118784, 106496, 98304, 86016, 77824, 69632, 65536, 57344,
            53248, 45056, 40960, 36864, 32768, 28672, 28672, 24576,
            20480, 20480, 16384, 16384, 12288, 12288, 8192, 8192,
            8192, 8192, 4096, 4096, 4096, 4096, 4096, 4096,
        ],
    );
    proof {
        reveal(synthesis_window_table);
    }
    assert(r@ =~= synthesis_window_table());
    r
}

/// Entries 0 to 31 of `analysis_window_table`.
pub open spec fn en_part_0() -> Seq<i64> {
    seq![
        0i64, -128i64, -128i64, -128i64, -128i64, -128i64, -128i64, -256i64,
        -256i64, -256i64, -256i64, -384i64, -384i64, -512i64, -512i64, -640i64,
        -640i64, -768i64, -896i64, -896i64, -1024i64, -1152i64, -1280i64, -1408i64,
        -1664i64, -1792i64, -2048i64, -2176i64, -2432i64, -2688i64, -3072i64, -3328i64,
    ]
}

/// Entries 32 to 63 of `analysis_window_table`.
pub open spec fn en_part_1() -> Seq<i64> {
    seq![
        -3712i64, -3968i64, -4480i64, -4864i64, -5248i64, -5760i64, -6272i64, -6784i64,
        -7424i64, -8064i64, -8704i64, -9344i64, -10112i64, -10880i64, -11648i64, -12416i64,
        -13312i64, -14208i64, -14976i64, -16000i64, -16896i64, -17792i64, -18816i64, -19712i64,
        -20608i64, -21632i64, -22528i64, -23424i64, -24320i64, -25088i64, -25856i64, -26624i64,
    ]
}

/// Entries 64 to 95 of `analysis_window_table`.
pub open spec fn en_part_2() -> Seq<i64> {
    seq![
        27264i64, 27904i64, 28416i64, 28800i64, 29056i64, 29184i64, 29184i64, 29056i64,
        28672i64, 28288i64, 27520i64, 26624i64, 25600i64, 24192i64, 22656i64, 20864i64,
        18688i64, 16256i64, 13568i64, 10624i64, 7296i64, 3712i64, -256i64, -4608i64,
        -9216i64, -14208i64, -19584i64, -25216i64, -31232i64, -37632i64, -44416i64, -51328i64,
    ]
}

/// Entries 96 to 127 of `analysis_window_table`.
pub open spec fn en_part_3() -> Seq<i64> {
    seq![
        -58752i64, -66432i64, -74368i64, -82560i64, -91008i64, -99712i64, -108544i64, -117632i64,
        -126848i64, -136192i64, -145536i64, -154880i64, -164224i64, -173568i64, -182784i64, -191744i64,
        -200576i64, -209152i64, -217344i64, -225152i64, -232576i64, -239360i64, -245632i64, -251136i64,
        -256128i64, -260096i64, -263296i64, -265600i64, -266880i64, -267136i64, -266240i64, -264064i64,
    ]
}

/// Entries 128 to 159 of `analysis_window_table`.
pub open spec fn en_part_4() -> Seq<i64> {
    seq![
        260736i64, 256000i64, 249856i64, 242304i64, 233216i64, 222592i64, 210432i64, 196480i64,
        180992i64, 163840i64, 144768i64, 124160i64, 101632i64, 77440i64, 51456i64, 23680i64,
        -5760i64, -36864i64, -69760i64, -104192i64, -140160i64, -177664i64, -216576i64, -256768i64,
        -298240i64, -340864i64, -384512i64, -428928i64, -474240i64, -520064i64, -566400i64, -612864i64,
    ]
}

/// Entries 160 to 191 of `analysis_window_table`.
pub open spec fn en_part_5() -> Seq<i64> {
    seq![
        -659584i64, -706176i64, -752512i64, -798336i64, -843392i64, -887680i64, -930688i64, -972416i64,
        -1012480i64, -1050752i64, -1086848i64, -1120640i64, -1151744i64, -1180032i64, -1205248i64, -1226880i64,
        -1245056i64, -1259264i64, -1269248i64, -1274752i64, -1275648i64, -1271680i64, -1262464i64, -1248000i64,
        -1227776i64, -1201792i64, -1169792i64, -1131520i64, -1086976i64, -1035776i64, -977920i64, -913152i64,
    ]
}

/// Entries 192 to 223 of `analysis_window_table`.
pub open spec fn en_part_6() -> Seq<i64> {
    seq![
        841472i64, 762752i64, 676864i64, 583808i64, 483328i64, 375680i64, 260736i64, 138496i64,
        8960i64, -127744i64, -271616i64, -422400i64, -580224i64, -744704i64, -915712i64, -1093120i64,
        -1276800i64, -1466240i64, -1661440i64, -1862144i64, -2067840i64, -2278272i64, -2493184i64, -2712192i64,
        -2934912i64, -3160832i64, -3389696i64, -3620992i64, -3854336i64, -4089216i64, -4325248i64, -4561920i64,
    ]
}

/// Entries 224 to 255 of `analysis_window_table`.
pub open spec fn en_part_7() -> Seq<i64> {
    seq![
        -4798592i64, -5035008i64, -5270528i64, -5504768i64, -5737088i64, -5966976i64, -6193920i64, -6417536i64,
        -6637184i64, -6852352i64, -7062784i64, -7267584i64, -7466624i64, -7659264i64, -7844992i64, -8023552i64,
        -8194432i64, -8357120i64, -8511232i64, -8656512i64, -8792576i64, -8918912i64, -9035520i64, -9141760i64,
        -9237632i64, -9322880i64, -9397120i64, -9460224i64, -9512064i64, -9552640i64, -9581568i64, -9598976i64,
    ]
}

/// Entries 256 to 287 of `analysis_window_table`.
pub open spec fn en_part_8() -> Seq<i64> {
    seq![
        9604864i64, 9598976i64, 9581568i64, 9552640i64, 9512064i64, 9460224i64, 9397120i64, 9322880i64,
        9237632i64, 9141760i64, 9035520i64, 8918912i64, 8792576i64, 8656512i64, 8511232i64, 8357120i64,
        8194432i64, 8023552i64, 7844992i64, 7659264i64, 7466624i64, 7267584i64, 7062784i64, 6852352i64,
        6637184i64, 6417536i64, 6193920i64, 5966976i64, 5737088i64, 5504768i64, 5270528i64, 5035008i64,
    ]
}

/// Entries 288 to 319 of `analysis_window_table`.
pub open spec fn en_part_9() -> Seq<i64> {
    seq![
        4798592i64, 4561920i64, 4325248i64, 4089216i64, 3854336i64, 3620992i64, 3389696i64, 3160832i64,
        2934912i64, 2712192i64, 2493184i64, 2278272i64, 2067840i64, 1862144i64, 1661440i64, 1466240i64,
        1276800i64, 1093120i64, 915712i64, 744704i64, 580224i64, 422400i64, 271616i64, 127744i64,
        -8960i64, -138496i64, -260736i64, -375680i64, -483328i64, -583808i64, -676864i64, -762752i64,
    ]
}

/// Entries 320 to 351 of `analysis_window_table`.
pub open spec fn en_part_10() -> Seq<i64> {
    seq![
        841472i64, 913152i64, 977920i64, 1035776i64, 1086976i64, 1131520i64, 1169792i64, 1201792i64,
        1227776i64, 1248000i64, 1262464i64, 1271680i64, 1275648i64, 1274752i64, 1269248i64, 1259264i64,
        1245056i64, 1226880i64, 1205248i64, 1180032i64, 1151744i64, 1120640i64, 1086848i64, 1050752i64,
        1012480i64, 972416i64, 930688i64, 887680i64, 843392i64, 798336i64, 752512i64, 706176i64,
    ]
}

/// Entries 352 to 383 of `analysis_window_table`.
pub open spec fn en_part_11() -> Seq<i64> {
    seq![
        659584i64, 612864i64, 566400i64, 520064i64, 474240i64, 428928i64, 384512i64, 340864i64,
        298240i64, 256768i64, 216576i64, 177664i64, 140160i64, 104192i64, 69760i64, 36864i64,
        5760i64, -23680i64, -51456i64, -77440i64, -101632i64, -124160i64, -144768i64, -163840i64,
        -180992i64, -196480i64, -210432i64, -222592i64, -233216i64, -242304i64, -249856i64, -256000i64,
    ]
}

/// Entries 384 to 415 of `analysis_window_table`.
pub open spec fn en_part_12() -> Seq<i64> {
    seq![
        260736i64, 264064i64, 266240i64, 267136i64, 266880i64, 265600i64, 263296i64, 260096i64,
        256128i64, 251136i64, 245632i64, 239360i64, 232576i64, 225152i64, 217344i64, 209152i64,
        200576i64, 191744i64, 182784i64, 173568i64, 164224i64, 154880i64, 145536i64, 136192i64,
        126848i64, 117632i64, 108544i64, 99712i64, 91008i64, 82560i64, 74368i64, 66432i64,
    ]
}

/// Entries 416 to 447 of `analysis_window_table`.
pub open spec fn en_part_13() -> Seq<i64> {
    seq![
        58752i64, 51328i64, 44416i64, 37632i64, 31232i64, 25216i64, 19584i64, 14208i64,
        9216i64, 4608i64, 256i64, -3712i64, -7296i64, -10624i64, -13568i64, -16256i64,
        -18688i64, -20864i64, -22656i64, -24192i64, -25600i64, -26624i64, -27520i64, -28288i64,
        -28672i64, -29056i64, -29184i64, -29184i64, -29056i64, -28800i64, -28416i64, -27904i64,
    ]
}

/// Entries 448 to 479 of `analysis_window_table`.
pub open spec fn en_part_14() -> Seq<i64> {
    seq![
        27264i64, 26624i64, 25856i64, 25088i64, 24320i64, 23424i64, 22528i64, 21632i64,
        20608i64, 19712i64, 18816i64, 17792i64, 16896i64, 16000i64, 14976i64, 14208i64,
        13312i64, 12416i64, 11648i64, 10880i64, 10112i64, 9344i64, 8704i64, 8064i64,
        7424i64, 6784i64, 6272i64, 5760i64, 5248i64, 4864i64, 4480i64, 3968i64,
    ]
}

/// Entries 480 to 511 of `analysis_window_table`.
pub open spec fn en_part_15() -> Seq<i64> {
    seq![
        3712i64, 3328i64, 3072i64, 2688i64, 2432i64, 2176i64, 2048i64, 1792i64,
        1664i64, 1408i64, 1280i64, 1152i64, 1024i64, 896i64, 896i64, 768i64,
        640i64, 640i64, 512i64, 512i64, 384i64, 384i64, 256i64, 256i64,
        256i64, 256i64, 128i64, 128i64, 128i64, 128i64, 128i64, 128i64,
    ]
}

/// The analysis window, 28-bit fixed point.
#[verifier::opaque]
pub open spec fn analysis_window_table() -> Seq<i64> {
    en_part_0() + en_part_1() + en_part_2() + en_part_3() + en_part_4() + en_part_5() + en_part_6() + en_part_7() + en_part_8() + en_part_9() + en_part_10() + en_part_11() + en_part_12() + en_part_13() + en_part_14() + en_part_15()
}

/// The analysis window, 28-bit fixed point.
pub fn analysis_window() -> (r: Vec<i64>)
    ensures
        r@ == analysis_window_table(),
        r@.len() == 512,
{
    let mut r: Vec<i64> = Vec::new();
    r.extend_from_slice(
        &[
            0, -128, -128, -128, -128, -128, -128, -256,
            -256, -256, -256, -384, -384, -512, -512, -640,
            -640, -768, -896, -896, -1024, -1152, -1280, -1408,
            -1664, -1792, -2048, -2176, -2432, -2688, -3072, -3328,
        ],
    );
    r.extend_from_slice(
        &[
            -3712, -3968, -4480, -4864, -5248, -5760, -6272, -6784,
            -7424, -8064, -8704, -9344, -10112, -10880, -11648, -12416,
            -13312, -14208, -14976, -16000, -16896, -17792, -18816, -19712,
            -20608, -21632, -22528, -23424, -24320, -25088, -25856, -26624,
        ],
    );
    r.extend_from_slice(
        &[
            27264, 27904, 28416, 28800, 29056, 29184, 29184, 29056,
            28672, 28288, 27520, 26624, 25600, 24192, 22656, 20864,
            18688, 16256, 13568, 10624, 7296, 3712, -256, -4608,
            -9216, -14208, -19584, -25216, -31232, -37632, -44416, -51328,
        ],
    );
    r.extend_from_slice(
        &[
            -58752, -66432, -74368, -82560, -91008, -99712, -108544, -117632,
            -126848, -136192, -145536, -154880, -164224, -173568, -182784, -191744,
            -200576, -209152, -217344, -225152, -232576, -239360, -245632, -251136,
            -256128, -260096, -263296, -265600, -266880, -267136, -266240, -264064,
        ],
    );
    r.extend_from_slice(
        &[
            260736, 256000, 249856, 242304, 233216, 222592, 210432, 196480,
            180992, 163840, 144768, 124160, 101632, 77440, 51456, 23680,
            -5760, -36864, -69760, -104192, -140160, -177664, -216576, -256768,
            -298240, -340864, -384512, -428928, -474240, -520064, -566400, -612864,
        ],
    );
    r.extend_from_slice(
        &[
            -659584, -706176, -752512, -798336, -843392, -887680, -930688, -972416,
            -1012480, -1050752, -1086848, -1120640, -1151744, -1180032, -1205248, -1226880,
            -1245056, -1259264, -1269248, -1274752, -1275648, -1271680, -1262464, -1248000,
            -1227776, -1201792, -1169792, -1131520, -1086976, -1035776, -977920, -913152,
        ],
    );
    r.extend_from_slice(
        &[
            841472, 762752, 676864, 583808, 483328, 375680, 260736, 138496,
            8960, -127744, -271616, -422400, -580224, -744704, -915712, -1093120,
            -1276800, -1466240, -1661440, -1862144, -2067840, -2278272, -2493184, -2712192,
            -2934912, -3160832, -3389696, -3620992, -3854336, -4089216, -4325248, -4561920,
        ],
    );
    r.extend_from_slice(
        &[
            -4798592, -5035008, -5270528, -5504768, -5737088, -5966976, -6193920, -6417536,
            -6637184, -6852352, -7062784, -7267584, -7466624, -7659264, -7844992, -8023552,
            -8194432, -8357120, -8511232, -8656512, -8792576, -8918912, -9035520, -9141760,
            -9237632, -9322880, -9397120, -9460224, -9512064, -9552640, -9581568, -9598976,
        ],
    );
    r.extend_from_slice(
        &[
            9604864, 9598976, 9581568, 9552640, 9512064, 9460224, 9397120, 9322880,
            9237632, 9141760, 9035520, 8918912, 8792576, 8656512, 8511232, 8357120,
            8194432, 8023552, 7844992, 7659264, 7466624, 7267584, 7062784, 6852352,
            6637184, 6417536, 6193920, 5966976, 5737088, 5504768, 5270528, 5035008,
        ],
    );
    r.extend_from_slice(
        &[
            4798592, 4561920, 4325248, 4089216, 3854336, 3620992, 3389696, 3160832,
            2934912, 2712192, 2493184, 2278272, 2067840, 1862144, 1661440, 1466240,
            1276800, 1093120, 915712, 744704, 580224, 422400, 271616, 127744,
            -8960, -138496, -260736, -375680, -483328, -583808, -676864, -762752,
        ],
    );
    r.extend_from_slice(
        &[
            841472, 913152, 977920, 1035776, 1086976, 1131520, 1169792, 1201792,
            1227776, 1248000, 1262464, 1271680, 1275648, 1274752, 1269248, 1259264,
            1245056, 1226880, 1205248, 1180032, 1151744, 1120640, 1086848, 1050752,
            1012480, 972416, 930688, 887680, 843392, 798336, 752512, 706176,
        ],
    );
    r.extend_from_slice(
        &[
            659584, 612864, 566400, 520064, 474240, 428928, 384512, 340864,
            298240, 256768, 216576, 177664, 140160, 104192, 69760, 36864,
            5760, -23680, -51456, -77440, -101632, -124160, -144768, -163840,
            -180992, -196480, -210432, -222592, -233216, -242304, -249856, -256000,
        ],
    );
    r.extend_from_slice(
        &[
            260736, 264064, 266240, 267136, 266880, 265600, 263296, 260096,
            256128, 251136, 245632, 239360, 232576, 225152, 217344, 209152,
            200576, 191744, 182784, 173568, 164224, 154880, 145536, 136192,
            126848, 117632, 108544, 99712, 91008, 82560, 74368, 66432,
        ],
    );
    r.extend_from_slice(
        &[
            58752, 51328, 44416, 37632, 31232, 25216, 19584, 14208,
            9216, 4608, 256, -3712, -7296, -10624, -13568, -16256,
            -18688, -20864, -22656, -24192, -25600, -26624, -27520, -28288,
            -28672, -29056, -29184, -29184, -29056, -28800, -28416, -27904,
        ],
    );
    r.extend_from_slice(
        &[
            27264, 26624, 25856, 25088, 24320, 23424, 22528, 21632,
            20608, 19712, 18816, 17792, 16896, 16000, 14976, 14208,
            13312, 12416, 11648, 10880, 10112, 9344, 8704, 8064,
            7424, 6784, 6272, 5760, 5248, 4864, 4480, 3968,
        ],
    );
    r.extend_from_slice(
        &[
            3712, 3328, 3072, 2688, 2432, 2176, 2048, 1792,
            1664, 1408, 1280, 1152, 1024, 896, 896, 768,
            640, 640, 512, 512, 384, 384, 256, 256,
            256, 256, 128, 128, 128, 128, 128, 128,
        ],
    );
    proof {
        reveal(analysis_window_table);
    }
    assert(r@ =~= analysis_window_table());
    r
}

/// Entries 0 to 31 of `cosine_rows_0`.
pub open spec fn cos_part_0_0() -> Seq<i64> {
    seq![
        189812528i64, -189812528i64, -189812496i64, 189812592i64, 189812528i64, -189812656i64, -189812464i64, 189812544i64,
        189812400i64, -189812592i64, -189812336i64, 189812480i64, 189812464i64, -189812720i64, -189812576i64, 189812608i64,
        189812336i64, -189812848i64, -189812464i64, 189812720i64, 189812576i64, -189812608i64, -189812336i64, 189812848i64,
        189812096i64, -189813088i64, -189812576i64, 189812608i64, 189812336i64, -189812848i64, -189812080i64, 189813104i64,
    ]
}

/// Entries 32 to 63 of `cosine_rows_0`.
pub open spec fn cos_part_0_1() -> Seq<i64> {
    seq![
        180270224i64, -215609408i64, -138003424i64, 242662816i64, 90433104i64, -260390800i64, -39387596i64, 268112112i64,
        -13171550i64, -265530048i64, 65224524i64, 252743712i64, -114770952i64, -230244640i64, 159906800i64, 198897392i64,
        -198897536i64, -159906640i64, 230245008i64, 114770768i64, -252743968i64, -65223824i64, 265530032i64, 13171344i64,
        -268112096i64, 39388308i64, 260390816i64, -90433296i64, -242662624i64, 138003936i64, 215608864i64, -180270304i64,
    ]
}

/// Entries 64 to 95 of `cosine_rows_0`.
pub open spec fn cos_part_0_2() -> Seq<i64> {
    seq![
        170293648i64, -236738960i64, -77922664i64, 267142880i64, -26311312i64, -256876720i64, 126539632i64, 207503344i64,
        -207503520i64, -126539616i64, 256876800i64, 26311166i64, -267142880i64, 77922928i64, 236738912i64, -170293936i64,
        -170293504i64, 236738928i64, 77922400i64, -267142928i64, 26311204i64, 256876640i64, -126540104i64, -207503504i64,
        207503536i64, 126539144i64, -256876960i64, -26311148i64, 267142816i64, -77923440i64, -236738912i64, 170293952i64,
    ]
}

/// Entries 96 to 127 of `cosine_rows_0`.
pub open spec fn cos_part_0_3() -> Seq<i64> {
    seq![
        159906816i64, -252743824i64, -13171410i64, 260390752i64, -138003392i64, -180270144i64, 242662784i64, 39387508i64,
        -265530048i64, 114771104i64, 198897520i64, -230244736i64, -65224164i64, 268112096i64, -90433288i64, -215609392i64,
        215609616i64, 90432928i64, -268112144i64, 65224536i64, 230244544i64, -198897424i64, -114770760i64, 265530128i64,
        -39387636i64, -242662624i64, 180270800i64, 138003280i64, -260390912i64, 13171408i64, 252743712i64, -159907376i64,
    ]
}

/// Entries 128 to 159 of `cosine_rows_0`.
pub open spec fn cos_part_0_4() -> Seq<i64> {
    seq![
        149134736i64, -263277552i64, 52369184i64, 223195856i64, -223195968i64, -52369132i64, 263277552i64, -149134912i64,
        -149134832i64, 263277616i64, -52369488i64, -223195760i64, 223196064i64, 52368952i64, -263277504i64, 149134848i64,
        149134672i64, -263277648i64, 52369164i64, 223195664i64, -223195888i64, -52368776i64, 263277568i64, -149135008i64,
        -149134096i64, 263277584i64, -52369844i64, -223195840i64, 223196272i64, 52369100i64, -263277440i64, 149134736i64,
    ]
}

/// Entries 160 to 191 of `cosine_rows_0`.
pub open spec fn cos_part_0_5() -> Seq<i64> {
    seq![
        138003392i64, -268112112i64, 114771024i64, 159906720i64, -265530064i64, 90433352i64, 180270080i64, -260390784i64,
        65224524i64, 198897520i64, -252743840i64, 39387788i64, 215609280i64, -242662864i64, 13171732i64, 230244640i64,
        -230244928i64, -13171687i64, 242662624i64, -215609312i64, -39387236i64, 252743824i64, -198897888i64, -65224480i64,
        260390640i64, -180270304i64, -90432592i64, 265530032i64, -159907376i64, -114770752i64, 268112080i64, -138003648i64,
    ]
}

/// Entries 192 to 223 of `cosine_rows_0`.
pub open spec fn cos_part_0_6() -> Seq<i64> {
    seq![
        126539576i64, -267142864i64, 170293664i64, 77922704i64, -256876720i64, 207503472i64, 26311086i64, -236738912i64,
        236739008i64, -26311534i64, -207503184i64, 256876704i64, -77922768i64, -170293504i64, 267142896i64, -126539496i64,
        -126539152i64, 267142864i64, -170294208i64, -77922400i64, 256876736i64, -207503744i64, -26311148i64, 236738576i64,
        -236739104i64, 26311218i64, 207503056i64, -256876768i64, 77923448i64, 170293360i64, -267142960i64, 126540120i64,
    ]
}

/// Entries 224 to 255 of `cosine_rows_0`.
pub open spec fn cos_part_0_7() -> Seq<i64> {
    seq![
        114770952i64, -260390784i64, 215609424i64, -13171504i64, -198897520i64, 265530048i64, -138003552i64, -90433096i64,
        252743712i64, -230244736i64, 39387788i64, 180270000i64, -268112112i64, 159906944i64, 65224160i64, -242662768i64,
        242663088i64, -65224868i64, -159906768i64, 268112080i64, -180270544i64, -39387572i64, 230244368i64, -252743968i64,
        90433304i64, 138002704i64, -265529968i64, 198897664i64, 13171668i64, -215609680i64, 260391072i64, -114771760i64,
    ]
}

/// Entries 256 to 287 of `cosine_rows_0`.
pub open spec fn cos_part_0_8() -> Seq<i64> {
    seq![
        102725800i64, -248002016i64, 248002032i64, -102725928i64, -102725680i64, 248001968i64, -248002080i64, 102725928i64,
        102725432i64, -248001968i64, 248002176i64, -102725936i64, -102725432i64, 248001968i64, -248002176i64, 102725944i64,
        102725896i64, -248001760i64, 248002176i64, -102725952i64, -102725888i64, 248001760i64, -248002192i64, 102725952i64,
        102724936i64, -248001760i64, 248002192i64, -102725960i64, -102725880i64, 248002160i64, -248002576i64, 102726912i64,
    ]
}

/// Entries 288 to 319 of `cosine_rows_0`.
pub open spec fn cos_part_0_9() -> Seq<i64> {
    seq![
        90433176i64, -230244752i64, 265530064i64, -180270336i64, 13171463i64, 159906784i64, -260390752i64, 242662864i64,
        -114770952i64, -65224164i64, 215609280i64, -268112112i64, 198897760i64, -39388300i64, -138003008i64, 252743712i64,
        -252743840i64, 138003344i64, 39386900i64, -198897152i64, 268112096i64, -215609520i64, 65224548i64, 114770136i64,
        -242662464i64, 260390912i64, -159907104i64, -13171325i64, 180270240i64, -265530080i64, 230244592i64, -90434600i64,
    ]
}

/// Entries 320 to 351 of `cosine_rows_0`.
pub open spec fn cos_part_0_10() -> Seq<i64> {
    seq![
        77922688i64, -207503392i64, 267142864i64, -236739008i64, 126539632i64, 26311086i64, -170293392i64, 256876640i64,
        -256876752i64, 170293664i64, -26311708i64, -126539304i64, 236738832i64, -267142928i64, 207503744i64, -77923104i64,
        -77922400i64, 207503280i64, -267142848i64, 236738944i64, -126539504i64, -26310464i64, 170293104i64, -256876544i64,
        256876864i64, -170293952i64, 26311566i64, 126539432i64, -236738896i64, 267142864i64, -207503328i64, 77922480i64,
    ]
}

/// Entries 352 to 383 of `cosine_rows_0`.
pub open spec fn cos_part_0_11() -> Seq<i64> {
    seq![
        65224480i64, -180270224i64, 252743792i64, -265530064i64, 215609456i64, -114771024i64, -13171188i64, 138003152i64,
        -230244640i64, 268112096i64, -242662864i64, 159906944i64, -39388300i64, -90432600i64, 198897152i64, -260390640i64,
        260390912i64, -198897888i64, 90433616i64, 39387232i64, -159906496i64, 242662624i64, -268112128i64, 230244928i64,
        -138003648i64, 13171757i64, 114770744i64, -215609264i64, 265530016i64, -252743856i64, 180270304i64, -65224564i64,
    ]
}

/// Entries 384 to 415 of `cosine_rows_0`.
pub open spec fn cos_part_0_12() -> Seq<i64> {
    seq![
        52369136i64, -149134688i64, 223195856i64, -263277520i64, 263277584i64, -223195920i64, 149134992i64, -52369488i64,
        -52368788i64, 149134400i64, -223195664i64, 263277536i64, -263277648i64, 223196256i64, -149135280i64, 52369836i64,
        52368440i64, -149134096i64, 223195472i64, -263277376i64, 263277728i64, -223195888i64, 149134736i64, -52369180i64,
        -52369092i64, 149134656i64, -223195840i64, 263277504i64, -263277584i64, 223196080i64, -149135024i64, 52369532i64,
    ]
}

/// Entries 416 to 447 of `cosine_rows_0`.
pub open spec fn cos_part_0_13() -> Seq<i64> {
    seq![
        39387668i64, -114770904i64, 180270208i64, -230244688i64, 260390768i64, -268112128i64, 252743904i64, -215609600i64,
        159906800i64, -90433288i64, 13171732i64, 65224160i64, -138003008i64, 198897152i64, -242662480i64, 265529920i64,
        -265530032i64, 242662800i64, -198897664i64, 138003648i64, -65224880i64, -13170988i64, 90433544i64, -159907024i64,
        215609472i64, -252743824i64, 268112112i64, -260390832i64, 230244944i64, -180270560i64, 114771456i64, -39388340i64,
    ]
}

/// Entries 448 to 479 of `cosine_rows_0`.
pub open spec fn cos_part_0_14() -> Seq<i64> {
    seq![
        26311274i64, -77922664i64, 126539512i64, -170293520i64, 207503344i64, -236738912i64, 256876640i64, -267142880i64,
        267142880i64, -256876800i64, 236738928i64, -207503536i64, 170293936i64, -126540104i64, 77923432i64, -26311212i64,
        -26311148i64, 77922392i64, -126539144i64, 170293104i64, -207502832i64, 236738896i64, -256876336i64, 267142720i64,
        -267142832i64, 256876672i64, -236738944i64, 207503552i64, -170293968i64, 126540128i64, -77923464i64, 26312262i64,
    ]
}

/// Entries 480 to 511 of `cosine_rows_0`.
pub open spec fn cos_part_0_15() -> Seq<i64> {
    seq![
        13171497i64, -39387644i64, 65224464i64, -90433016i64, 114770776i64, -138003456i64, 159906640i64, -180270256i64,
        198897392i64, -215609392i64, 230244640i64, -242662768i64, 252743712i64, -260390640i64, 265529920i64, -268112112i64,
        268112128i64, -265530144i64, 260390992i64, -252743856i64, 242662944i64, -230245104i64, 215609936i64, -198898352i64,
        180271312i64, -159906560i64, 138003360i64, -114771144i64, 90433640i64, -65225232i64, 39388680i64, -13172799i64,
    ]
}

/// Rows 0 to 15 of the cosine matrix.
#[verifier::opaque]
pub open spec fn cosine_rows_0() -> Seq<i64> {
    cos_part_0_0() + cos_part_0_1() + cos_part_0_2() + cos_part_0_3() + cos_part_0_4() + cos_part_0_5() + cos_part_0_6() + cos_part_0_7() + cos_part_0_8() + cos_part_0_9() + cos_part_0_10() + cos_part_0_11() + cos_part_0_12() + cos_part_0_13() + cos_part_0_14() + cos_part_0_15()
}

/// Rows 0 to 15 of the cosine matrix.
fn cosine_rows_0_15() -> (r: Vec<i64>)
    ensures
        r@ == cosine_rows_0(),
        r@.len() == 512,
{
    let mut r: Vec<i64> = Vec::new();
    r.extend_from_slice(
        &[
            189812528, -189812528, -189812496, 189812592, 189812528, -189812656, -189812464, 189812544,
            189812400, -189812592, -189812336, 189812480, 189812464, -189812720, -189812576, 189812608,
            189812336, -189812848, -189812464, 189812720, 189812576, -189812608, -189812336, 189812848,
            189812096, -189813088, -189812576, 189812608, 189812336, -189812848, -189812080, 189813104,
        ],
    );
    r.extend_from_slice(
        &[
            180270224, -215609408, -138003424, 242662816, 90433104, -260390800, -39387596, 268112112,
            -13171550, -265530048, 65224524, 252743712, -114770952, -230244640, 159906800, 198897392,
            -198897536, -159906640, 230245008, 114770768, -252743968, -65223824, 265530032, 13171344,
            -268112096, 39388308, 260390816, -90433296, -242662624, 138003936, 215608864, -180270304,
        ],
    );
    r.extend_from_slice(
        &[
            170293648, -236738960, -77922664, 267142880, -26311312, -256876720, 126539632, 207503344,
            -207503520, -126539616, 256876800, 26311166, -267142880, 77922928, 236738912, -170293936,
            -170293504, 236738928, 77922400, -267142928, 26311204, 256876640, -126540104, -207503504,
            207503536, 126539144, -256876960, -26311148, 267142816, -77923440, -236738912, 170293952,
        ],
    );
    r.extend_from_slice(
        &[
            159906816, -252743824, -13171410, 260390752, -138003392, -180270144, 242662784, 39387508,
            -265530048, 114771104, 198897520, -230244736, -65224164, 268112096, -90433288, -215609392,
            215609616, 90432928, -268112144, 65224536, 230244544, -198897424, -114770760, 265530128,
            -39387636, -242662624, 180270800, 138003280, -260390912, 13171408, 252743712, -159907376,
        ],
    );
    r.extend_from_slice(
        &[
            149134736, -263277552, 52369184, 223195856, -223195968, -52369132, 263277552, -149134912,
            -149134832, 263277616, -52369488, -223195760, 223196064, 52368952, -263277504, 149134848,
            149134672, -263277648, 52369164, 223195664, -223195888, -52368776, 263277568, -149135008,
            -149134096, 263277584, -52369844, -223195840, 223196272, 52369100, -263277440, 149134736,
        ],
    );
    r.extend_from_slice(
        &[
            138003392, -268112112, 114771024, 159906720, -265530064, 90433352, 180270080, -260390784,
            65224524, 198897520, -252743840, 39387788, 215609280, -242662864, 13171732, 230244640,
            -230244928, -13171687, 242662624, -215609312, -39387236, 252743824, -198897888, -65224480,
            260390640, -180270304, -90432592, 265530032, -159907376, -114770752, 268112080, -138003648,
        ],
    );
    r.extend_from_slice(
        &[
            126539576, -267142864, 170293664, 77922704, -256876720, 207503472, 26311086, -236738912,
            236739008, -26311534, -207503184, 256876704, -77922768, -170293504, 267142896, -126539496,
            -126539152, 267142864, -170294208, -77922400, 256876736, -207503744, -26311148, 236738576,
            -236739104, 26311218, 207503056, -256876768, 77923448, 170293360, -267142960, 126540120,
        ],
    );
    r.extend_from_slice(
        &[
            114770952, -260390784, 215609424, -13171504, -198897520, 265530048, -138003552, -90433096,
            252743712, -230244736, 39387788, 180270000, -268112112, 159906944, 65224160, -242662768,
            242663088, -65224868, -159906768, 268112080, -180270544, -39387572, 230244368, -252743968,
            90433304, 138002704, -265529968, 198897664, 13171668, -215609680, 260391072, -114771760,
        ],
    );
    r.extend_from_slice(
        &[
            102725800, -248002016, 248002032, -102725928, -102725680, 248001968, -248002080, 102725928,
            102725432, -248001968, 248002176, -102725936, -102725432, 248001968, -248002176, 102725944,
            102725896, -248001760, 248002176, -102725952, -102725888, 248001760, -248002192, 102725952,
            102724936, -248001760, 248002192, -102725960, -102725880, 248002160, -248002576, 102726912,
        ],
    );
    r.extend_from_slice(
        &[
            90433176, -230244752, 265530064, -180270336, 13171463, 159906784, -260390752, 242662864,
            -114770952, -65224164, 215609280, -268112112, 198897760, -39388300, -138003008, 252743712,
            -252743840, 138003344, 39386900, -198897152, 268112096, -215609520, 65224548, 114770136,
            -242662464, 260390912, -159907104, -13171325, 180270240, -265530080, 230244592, -90434600,
        ],
    );
    r.extend_from_slice(
        &[
            77922688, -207503392, 267142864, -236739008, 126539632, 26311086, -170293392, 256876640,
            -256876752, 170293664, -26311708, -126539304, 236738832, -267142928, 207503744, -77923104,
            -77922400, 207503280, -267142848, 236738944, -126539504, -26310464, 170293104, -256876544,
            256876864, -170293952, 26311566, 126539432, -236738896, 267142864, -207503328, 77922480,
        ],
    );
    r.extend_from_slice(
        &[
            65224480, -180270224, 252743792, -265530064, 215609456, -114771024, -13171188, 138003152,
            -230244640, 268112096, -242662864, 159906944, -39388300, -90432600, 198897152, -260390640,
            260390912, -198897888, 90433616, 39387232, -159906496, 242662624, -268112128, 230244928,
            -138003648, 13171757, 114770744, -215609264, 265530016, -252743856, 180270304, -65224564,
        ],
    );
    r.extend_from_slice(
        &[
            52369136, -149134688, 223195856, -263277520, 263277584, -223195920, 149134992, -52369488,
            -52368788, 149134400, -223195664, 263277536, -263277648, 223196256, -149135280, 52369836,
            52368440, -149134096, 223195472, -263277376, 263277728, -223195888, 149134736, -52369180,
            -52369092, 149134656, -223195840, 263277504, -263277584, 223196080, -149135024, 52369532,
        ],
    );
    r.extend_from_slice(
        &[
            39387668, -114770904, 180270208, -230244688, 260390768, -268112128, 252743904, -215609600,
            159906800, -90433288, 13171732, 65224160, -138003008, 198897152, -242662480, 265529920,
            -265530032, 242662800, -198897664, 138003648, -65224880, -13170988, 90433544, -159907024,
            215609472, -252743824, 268112112, -260390832, 230244944, -180270560, 114771456, -39388340,
        ],
    );
    r.extend_from_slice(
        &[
            26311274, -77922664, 126539512, -170293520, 207503344, -236738912, 256876640, -267142880,
            267142880, -256876800, 236738928, -207503536, 170293936, -126540104, 77923432, -26311212,
            -26311148, 77922392, -126539144, 170293104, -207502832, 236738896, -256876336, 267142720,
            -267142832, 256876672, -236738944, 207503552, -170293968, 126540128, -77923464, 26312262,
        ],
    );
    r.extend_from_slice(
        &[
            13171497, -39387644, 65224464, -90433016, 114770776, -138003456, 159906640, -180270256,
            198897392, -215609392, 230244640, -242662768, 252743712, -260390640, 265529920, -268112112,
            268112128, -265530144, 260390992, -252743856, 242662944, -230245104, 215609936, -198898352,
            180271312, -159906560, 138003360, -114771144, 90433640, -65225232, 39388680, -13172799,
        ],
    );
    proof {
        reveal(cosine_rows_0);
    }
    assert(r@ =~= cosine_rows_0());
    r
}

/// Entries 0 to 31 of `cosine_rows_1`.
pub open spec fn cos_part_1_0() -> Seq<i64> {
    seq![
        -11i64, 3i64, -90i64, 178i64, -9i64, 353i64, -184i64, 16i64,
        -359i64, 190i64, -534i64, -146i64, -197i64, 540i64, 139i64, 203i64,
        -547i64, 890i64, -210i64, 553i64, 126i64, 216i64, -560i64, 903i64,
        -1246i64, 1590i64, 114i64, 229i64, -572i64, 916i64, -1259i64, 1603i64,
    ]
}

/// Entries 32 to 63 of `cosine_rows_1`.
pub open spec fn cos_part_1_1() -> Seq<i64> {
    seq![
        -13171521i64, 39387648i64, -65224516i64, 90433352i64, -114771024i64, 138003616i64, -159906944i64, 180270288i64,
        -198897536i64, 215609616i64, -230244928i64, 242663088i64, -252743840i64, 260390912i64, -265530032i64, 268112128i64,
        -268112080i64, 265530032i64, -260390640i64, 252743824i64, -242662176i64, 230244880i64, -215609264i64, 198897136i64,
        -180269472i64, 159905648i64, -138003568i64, 114770736i64, -90432568i64, 65223456i64, -39386188i64, 13171642i64,
    ]
}

/// Entries 64 to 95 of `cosine_rows_1`.
pub open spec fn cos_part_1_2() -> Seq<i64> {
    seq![
        -26311298i64, 77922792i64, -126539552i64, 170293792i64, -207503520i64, 236739008i64, -256876752i64, 267142880i64,
        -267142864i64, 256876688i64, -236738912i64, 207503072i64, -170293632i64, 126539144i64, -77922720i64, 26310806i64,
        26311218i64, -77923112i64, 126540416i64, -170293952i64, 207503984i64, -236739584i64, 256876672i64, -267142896i64,
        267142784i64, -256876336i64, 236739056i64, -207503264i64, 170293088i64, -126538512i64, 77921048i64, -26311110i64,
    ]
}

/// Entries 96 to 127 of `cosine_rows_1`.
pub open spec fn cos_part_1_3() -> Seq<i64> {
    seq![
        -39387688i64, 114771024i64, -180270336i64, 230244864i64, -260390784i64, 268112112i64, -252743776i64, 215609280i64,
        -159906640i64, 90432928i64, -13171687i64, -65224868i64, 138003344i64, -198897888i64, 242662800i64, -265530144i64,
        265530032i64, -242662464i64, 198897376i64, -138003568i64, 65224132i64, 13172443i64, -90434600i64, 159906832i64,
        -215609728i64, 252744208i64, -268112096i64, 260390720i64, -230244352i64, 180269200i64, -114771032i64, 39387192i64,
    ]
}

/// Entries 128 to 159 of `cosine_rows_1`.
pub open spec fn cos_part_1_4() -> Seq<i64> {
    seq![
        -52369160i64, 149134800i64, -223195968i64, 263277584i64, -263277536i64, 223195952i64, -149134688i64, 52368952i64,
        52369492i64, -149134720i64, 223196256i64, -263277584i64, 263277568i64, -223195664i64, 149134672i64, -52368432i64,
        -52369512i64, 149134736i64, -223196272i64, 263277792i64, -263277568i64, 223195648i64, -149133792i64, 52369420i64,
        52369532i64, -149135600i64, 223196848i64, -263277600i64, 263277376i64, -223195072i64, 149134640i64, -52368396i64,
    ]
}

/// Entries 160 to 191 of `cosine_rows_1`.
pub open spec fn cos_part_1_5() -> Seq<i64> {
    seq![
        -65224500i64, 180270272i64, -252743808i64, 265530016i64, -215609280i64, 114770624i64, 13171557i64, -138003632i64,
        230245008i64, -268112144i64, 242662624i64, -159906768i64, 39386900i64, 90433616i64, -198897664i64, 260390992i64,
        -260390640i64, 198897376i64, -90433224i64, -39388328i64, 159907936i64, -242662800i64, 268112080i64, -230244000i64,
        138003264i64, -13170626i64, -114772392i64, 215609536i64, -265530192i64, 252743232i64, -180269968i64, 65223444i64,
    ]
}

/// Entries 192 to 223 of `cosine_rows_1`.
pub open spec fn cos_part_1_6() -> Seq<i64> {
    seq![
        -77922712i64, 207503440i64, -267142880i64, 236738832i64, -126539616i64, -26311534i64, 170293664i64, -256876800i64,
        256876688i64, -170293376i64, 26311154i64, 126539504i64, -236739264i64, 267142816i64, -207503280i64, 77922712i64,
        77923448i64, -207503760i64, 267142992i64, -236738896i64, 126538824i64, 26310894i64, -170293968i64, 256877056i64,
        -256876736i64, 170293088i64, -26309754i64, -126539840i64, 236739440i64, -267142880i64, 207503040i64, -77921368i64,
    ]
}

/// Entries 224 to 255 of `cosine_rows_1`.
pub open spec fn cos_part_1_7() -> Seq<i64> {
    seq![
        -90433200i64, 230244784i64, -265530032i64, 180270080i64, -13171188i64, -159906944i64, 260390784i64, -242662624i64,
        114770768i64, 65224536i64, -215609312i64, 268112080i64, -198897152i64, 39387232i64, 138003648i64, -252743856i64,
        252743824i64, -138003568i64, -39388328i64, 198898592i64, -268112128i64, 215608656i64, -65224456i64, -114771768i64,
        242662656i64, -260390640i64, 159905648i64, 13171783i64, -180271088i64, 265530048i64, -230244336i64, 90431584i64,
    ]
}

/// Entries 256 to 287 of `cosine_rows_1`.
pub open spec fn cos_part_1_8() -> Seq<i64> {
    seq![
        -102725824i64, 248002032i64, -248002000i64, 102725592i64, 102725928i64, -248002048i64, 248002032i64, -102725432i64,
        -102725624i64, 248002304i64, -248001760i64, 102725264i64, 102726264i64, -248002192i64, 248001888i64, -102725568i64,
        -102725960i64, 248002448i64, -248002016i64, 102724928i64, 102725656i64, -248002320i64, 248002144i64, -102725232i64,
        -102727240i64, 248002192i64, -248001488i64, 102725536i64, 102726936i64, -248002064i64, 248001616i64, -102725840i64,
    ]
}

/// Entries 288 to 319 of `cosine_rows_1`.
pub open spec fn cos_part_1_9() -> Seq<i64> {
    seq![
        -114770944i64, 260390784i64, -215609392i64, 13171276i64, 198897536i64, -265530048i64, 138003456i64, 90433608i64,
        -252743968i64, 230244544i64, -39387236i64, -180270544i64, 268112096i64, -159906496i64, -65224880i64, 242662944i64,
        -242662176i64, 65224132i64, 159907936i64, -268112128i64, 180269216i64, 39388000i64, -230245472i64, 252743696i64,
        -90431920i64, -138003664i64, 265530240i64, -198897360i64, -13172812i64, 215609552i64, -260390464i64, 114770712i64,
    ]
}

/// Entries 320 to 351 of `cosine_rows_1`.
pub open spec fn cos_part_1_10() -> Seq<i64> {
    seq![
        -126539624i64, 267142880i64, -170293520i64, -77922920i64, 256876800i64, -207503184i64, -26311708i64, 236738928i64,
        -236738912i64, 26311154i64, 207503536i64, -256876640i64, 77922392i64, 170293952i64, -267142816i64, 126539136i64,
        126540120i64, -267142832i64, 170293088i64, 77922480i64, -256876960i64, 207503472i64, 26312262i64, -236738960i64,
        236738400i64, -26311110i64, -207504208i64, 256876624i64, -77921368i64, -170293984i64, 267142720i64, -126539096i64,
    ]
}

/// Entries 352 to 383 of `cosine_rows_1`.
pub open spec fn cos_part_1_11() -> Seq<i64> {
    seq![
        -138003408i64, 268112112i64, -114770856i64, -159906800i64, 265530032i64, -90432928i64, -180270544i64, 260390768i64,
        -65223824i64, -198897424i64, 252743824i64, -39387572i64, -215609520i64, 242662624i64, -13170988i64, -230245104i64,
        230244880i64, 13172443i64, -242662800i64, 215608656i64, 39388000i64, -252744320i64, 198897136i64, 65224244i64,
        -260391008i64, 180270208i64, 90434304i64, -265530096i64, 159905632i64, 114771480i64, -268112096i64, 138000896i64,
    ]
}

/// Entries 384 to 415 of `cosine_rows_1`.
pub open spec fn cos_part_1_12() -> Seq<i64> {
    seq![
        -149134784i64, 263277536i64, -52369132i64, -223195920i64, 223195952i64, 52369320i64, -263277616i64, 149134672i64,
        149135008i64, -263277440i64, 52368440i64, 223195888i64, -223195840i64, -52369512i64, 263277664i64, -149134944i64,
        -149135584i64, 263277504i64, -52367748i64, -223196272i64, 223196016i64, 52370204i64, -263277600i64, 149133504i64,
        149135328i64, -263277568i64, 52368060i64, 223196096i64, -223195056i64, -52369892i64, 263277936i64, -149133760i64,
    ]
}

/// Entries 416 to 447 of `cosine_rows_1`.
pub open spec fn cos_part_1_13() -> Seq<i64> {
    seq![
        -159906832i64, 252743792i64, 13171463i64, -260390784i64, 138003152i64, 180270288i64, -242662624i64, -39388300i64,
        265530032i64, -114770760i64, -198897888i64, 230244368i64, 65224548i64, -268112128i64, 90433544i64, 215609936i64,
        -215609264i64, -90434600i64, 268112080i64, -65224456i64, -230245472i64, 198897136i64, 114770848i64, -265529872i64,
        39387192i64, 242663536i64, -180269456i64, -138003680i64, 260390384i64, -13170600i64, -252743872i64, 159907264i64,
    ]
}

/// Entries 448 to 479 of `cosine_rows_1`.
pub open spec fn cos_part_1_14() -> Seq<i64> {
    seq![
        -170293648i64, 236738912i64, 77922840i64, -267142864i64, 26311166i64, 256876704i64, -126539304i64, -207503536i64,
        207503072i64, 126539504i64, -256876640i64, -26311894i64, 267142864i64, -77922384i64, -236739264i64, 170293616i64,
        170294752i64, -236738576i64, -77922808i64, 267142720i64, -26310438i64, -256876768i64, 126538208i64, 207504000i64,
        -207503248i64, -126541048i64, 256876432i64, 26311604i64, -267142832i64, 77923648i64, 236740096i64, -170292272i64,
    ]
}

/// Entries 480 to 511 of `cosine_rows_1`.
pub open spec fn cos_part_1_15() -> Seq<i64> {
    seq![
        -180270256i64, 215609360i64, 138003472i64, -242662768i64, -90433120i64, 260390688i64, 39387960i64, -268112080i64,
        13171344i64, 265530128i64, -65224480i64, -252743968i64, 114770136i64, 230244928i64, -159907024i64, -198898352i64,
        198897136i64, 159906832i64, -230244000i64, -114771768i64, 252743696i64, 65224244i64, -265529872i64, -13172126i64,
        268112112i64, -39386176i64, -260391008i64, 90432864i64, 242663552i64, -138002368i64, -215609760i64, 180270192i64,
    ]
}

/// Rows 16 to 31 of the cosine matrix.
#[verifier::opaque]
pub open spec fn cosine_rows_1() -> Seq<i64> {
    cos_part_1_0() + cos_part_1_1() + cos_part_1_2() + cos_part_1_3() + cos_part_1_4() + cos_part_1_5() + cos_part_1_6() + cos_part_1_7() + cos_part_1_8() + cos_part_1_9() + cos_part_1_10() + cos_part_1_11() + cos_part_1_12() + cos_part_1_13() + cos_part_1_14() + cos_part_1_15()
}

/// Rows 16 to 31 of the cosine matrix.
fn cosine_rows_16_31() -> (r: Vec<i64>)
    ensures
        r@ == cosine_rows_1(),
        r@.len() == 512,
{
    let mut r: Vec<i64> = Vec::new();
    r.extend_from_slice(
        &[
            -11, 3, -90, 178, -9, 353, -184, 16,
            -359, 190, -534, -146, -197, 540, 139, 203,
            -547, 890, -210, 553, 126, 216, -560, 903,
            -1246, 1590, 114, 229, -572, 916, -1259, 1603,
        ],
    );
    r.extend_from_slice(
        &[
            -13171521, 39387648, -65224516, 90433352, -114771024, 138003616, -159906944, 180270288,
            -198897536, 215609616, -230244928, 242663088, -252743840, 260390912, -265530032, 268112128,
            -268112080, 265530032, -260390640, 252743824, -242662176, 230244880, -215609264, 198897136,
            -180269472, 159905648, -138003568, 114770736, -90432568, 65223456, -39386188, 13171642,
        ],
    );
    r.extend_from_slice(
        &[
            -26311298, 77922792, -126539552, 170293792, -207503520, 236739008, -256876752, 267142880,
            -267142864, 256876688, -236738912, 207503072, -170293632, 126539144, -77922720, 26310806,
            26311218, -77923112, 126540416, -170293952, 207503984, -236739584, 256876672, -267142896,
            267142784, -256876336, 236739056, -207503264, 170293088, -126538512, 77921048, -26311110,
        ],
    );
    r.extend_from_slice(
        &[
            -39387688, 114771024, -180270336, 230244864, -260390784, 268112112, -252743776, 215609280,
            -159906640, 90432928, -13171687, -65224868, 138003344, -198897888, 242662800, -265530144,
            265530032, -242662464, 198897376, -138003568, 65224132, 13172443, -90434600, 159906832,
            -215609728, 252744208, -268112096, 260390720, -230244352, 180269200, -114771032, 39387192,
        ],
    );
    r.extend_from_slice(
        &[
            -52369160, 149134800, -223195968, 263277584, -263277536, 223195952, -149134688, 52368952,
            52369492, -149134720, 223196256, -263277584, 263277568, -223195664, 149134672, -52368432,
            -52369512, 149134736, -223196272, 263277792, -263277568, 223195648, -149133792, 52369420,
            52369532, -149135600, 223196848, -263277600, 263277376, -223195072, 149134640, -52368396,
        ],
    );
    r.extend_from_slice(
        &[
            -65224500, 180270272, -252743808, 265530016, -215609280, 114770624, 13171557, -138003632,
            230245008, -268112144, 242662624, -159906768, 39386900, 90433616, -198897664, 260390992,
            -260390640, 198897376, -90433224, -39388328, 159907936, -242662800, 268112080, -230244000,
            138003264, -13170626, -114772392, 215609536, -265530192, 252743232, -180269968, 65223444,
        ],
    );
    r.extend_from_slice(
        &[
            -77922712, 207503440, -267142880, 236738832, -126539616, -26311534, 170293664, -256876800,
            256876688, -170293376, 26311154, 126539504, -236739264, 267142816, -207503280, 77922712,
            77923448, -207503760, 267142992, -236738896, 126538824, 26310894, -170293968, 256877056,
            -256876736, 170293088, -26309754, -126539840, 236739440, -267142880, 207503040, -77921368,
        ],
    );
    r.extend_from_slice(
        &[
            -90433200, 230244784, -265530032, 180270080, -13171188, -159906944, 260390784, -242662624,
            114770768, 65224536, -215609312, 268112080, -198897152, 39387232, 138003648, -252743856,
            252743824, -138003568, -39388328, 198898592, -268112128, 215608656, -65224456, -114771768,
            242662656, -260390640, 159905648, 13171783, -180271088, 265530048, -230244336, 90431584,
        ],
    );
    r.extend_from_slice(
        &[
            -102725824, 248002032, -248002000, 102725592, 102725928, -248002048, 248002032, -102725432,
            -102725624, 248002304, -248001760, 102725264, 102726264, -248002192, 248001888, -102725568,
            -102725960, 248002448, -248002016, 102724928, 102725656, -248002320, 248002144, -102725232,
            -102727240, 248002192, -248001488, 102725536, 102726936, -248002064, 248001616, -102725840,
        ],
    );
    r.extend_from_slice(
        &[
            -114770944, 260390784, -215609392, 13171276, 198897536, -265530048, 138003456, 90433608,
            -252743968, 230244544, -39387236, -180270544, 268112096, -159906496, -65224880, 242662944,
            -242662176, 65224132, 159907936, -268112128, 180269216, 39388000, -230245472, 252743696,
            -90431920, -138003664, 265530240, -198897360, -13172812, 215609552, -260390464, 114770712,
        ],
    );
    r.extend_from_slice(
        &[
            -126539624, 267142880, -170293520, -77922920, 256876800, -207503184, -26311708, 236738928,
            -236738912, 26311154, 207503536, -256876640, 77922392, 170293952, -267142816, 126539136,
            126540120, -267142832, 170293088, 77922480, -256876960, 207503472, 26312262, -236738960,
            236738400, -26311110, -207504208, 256876624, -77921368, -170293984, 267142720, -126539096,
        ],
    );
    r.extend_from_slice(
        &[
            -138003408, 268112112, -114770856, -159906800, 265530032, -90432928, -180270544, 260390768,
            -65223824, -198897424, 252743824, -39387572, -215609520, 242662624, -13170988, -230245104,
            230244880, 13172443, -242662800, 215608656, 39388000, -252744320, 198897136, 65224244,
            -260391008, 180270208, 90434304, -265530096, 159905632, 114771480, -268112096, 138000896,
        ],
    );
    r.extend_from_slice(
        &[
            -149134784, 263277536, -52369132, -223195920, 223195952, 52369320, -263277616, 149134672,
            149135008, -263277440, 52368440, 223195888, -223195840, -52369512, 263277664, -149134944,
            -149135584, 263277504, -52367748, -223196272, 223196016, 52370204, -263277600, 149133504,
            149135328, -263277568, 52368060, 223196096, -223195056, -52369892, 263277936, -149133760,
        ],
    );
    r.extend_from_slice(
        &[
            -159906832, 252743792, 13171463, -260390784, 138003152, 180270288, -242662624, -39388300,
            265530032, -114770760, -198897888, 230244368, 65224548, -268112128, 90433544, 215609936,
            -215609264, -90434600, 268112080, -65224456, -230245472, 198897136, 114770848, -265529872,
            39387192, 242663536, -180269456, -138003680, 260390384, -13170600, -252743872, 159907264,
        ],
    );
    r.extend_from_slice(
        &[
            -170293648, 236738912, 77922840, -267142864, 26311166, 256876704, -126539304, -207503536,
            207503072, 126539504, -256876640, -26311894, 267142864, -77922384, -236739264, 170293616,
            170294752, -236738576, -77922808, 267142720, -26310438, -256876768, 126538208, 207504000,
            -207503248, -126541048, 256876432, 26311604, -267142832, 77923648, 236740096, -170292272,
        ],
    );
    r.extend_from_slice(
        &[
            -180270256, 215609360, 138003472, -242662768, -90433120, 260390688, 39387960, -268112080,
            13171344, 265530128, -65224480, -252743968, 114770136, 230244928, -159907024, -198898352,
            198897136, 159906832, -230244000, -114771768, 252743696, 65224244, -265529872, -13172126,
            268112112, -39386176, -260391008, 90432864, 242663552, -138002368, -215609760, 180270192,
        ],
    );
    proof {
        reveal(cosine_rows_1);
    }
    assert(r@ =~= cosine_rows_1());
    r
}

/// Entries 0 to 31 of `cosine_rows_2`.
pub open spec fn cos_part_2_0() -> Seq<i64> {
    seq![
        -189812528i64, 189812528i64, 189812544i64, -189812336i64, -189812720i64, 189812336i64, 189812720i64, -189812336i64,
        -189813088i64, 189812336i64, 189813104i64, -189812320i64, -189813104i64, 189812320i64, 189813104i64, -189812320i64,
        -189812384i64, 189811584i64, 189813120i64, -189812304i64, -189812400i64, 189811584i64, 189813120i64, -189812304i64,
        -189813856i64, 189811568i64, 189813136i64, -189812288i64, -189812416i64, 189813008i64, 189814592i64, -189810832i64,
    ]
}

/// Entries 32 to 63 of `cosine_rows_2`.
pub open spec fn cos_part_2_1() -> Seq<i64> {
    seq![
        -198897584i64, 159906720i64, 230244864i64, -114770928i64, -252743840i64, 65224328i64, 265530080i64, -13171687i64,
        -268112096i64, -39387636i64, 260390640i64, 90433304i64, -242662464i64, -138003648i64, 215609472i64, 180271312i64,
        -180269472i64, -215609728i64, 138003264i64, 242662656i64, -90431920i64, -260391008i64, 39387192i64, 268112112i64,
        13173155i64, -265529872i64, -65225256i64, 252743008i64, 114772720i64, -230243984i64, -159907696i64, 198897104i64,
    ]
}

/// Entries 64 to 95 of `cosine_rows_2`.
pub open spec fn cos_part_2_2() -> Seq<i64> {
    seq![
        -207503424i64, 126539512i64, 256876752i64, -26310998i64, -267142880i64, -77922768i64, 236738832i64, 170293936i64,
        -170293632i64, -236739264i64, 77922392i64, 267142864i64, 26311902i64, -256876336i64, -126540424i64, 207503056i64,
        207503552i64, -126539728i64, -256877168i64, 26310096i64, 267142784i64, 77923144i64, -236738880i64, -170295040i64,
        170292544i64, 236739440i64, -77922016i64, -267142896i64, -26311274i64, 256876816i64, 126538960i64, -207501504i64,
    ]
}

/// Entries 96 to 127 of `cosine_rows_2`.
pub open spec fn cos_part_2_3() -> Seq<i64> {
    seq![
        -215609408i64, 90433104i64, 268112112i64, 65224524i64, -230244640i64, -198897536i64, 114770768i64, 265530032i64,
        39388308i64, -242662624i64, -180270304i64, 138002704i64, 260390912i64, 13171757i64, -252743824i64, -159906560i64,
        159905648i64, 252744208i64, -13170626i64, -260390640i64, -138003664i64, 180270208i64, 242663536i64, -39386176i64,
        -265529872i64, -114771792i64, 198895744i64, 230246016i64, -65222432i64, -268112016i64, -90434648i64, 215608624i64,
    ]
}

/// Entries 128 to 159 of `cosine_rows_2`.
pub open spec fn cos_part_2_4() -> Seq<i64> {
    seq![
        -223195936i64, 52369092i64, 263277552i64, 149134992i64, -149134688i64, -263277616i64, -52369832i64, 223195664i64,
        223196064i64, -52369108i64, -263277376i64, -149135296i64, 149134368i64, 263277792i64, 52370192i64, -223195456i64,
        -223196272i64, 52368744i64, 263277504i64, 149134752i64, -149134928i64, -263277856i64, -52370556i64, 223195248i64,
        223196480i64, -52368384i64, -263277424i64, -149135056i64, 149134608i64, 263277536i64, 52368908i64, -223196176i64,
    ]
}

/// Entries 160 to 191 of `cosine_rows_2`.
pub open spec fn cos_part_2_5() -> Seq<i64> {
    seq![
        -230244768i64, 13171450i64, 242662704i64, 215609408i64, -39387252i64, -252743712i64, -198897648i64, 65224484i64,
        260390816i64, 180270800i64, -90432592i64, -265529968i64, -159907104i64, 114770744i64, 268112112i64, 138003360i64,
        -138003568i64, -268112096i64, -114772392i64, 159905648i64, 265530240i64, 90434304i64, -180269456i64, -260391008i64,
        -65225256i64, 198895744i64, 252744672i64, 39390064i64, -215608016i64, -242663696i64, -13173524i64, 230243808i64,
    ]
}

/// Entries 192 to 223 of `cosine_rows_2`.
pub open spec fn cos_part_2_6() -> Seq<i64> {
    seq![
        -236738960i64, -26311312i64, 207503344i64, 256876800i64, 77922928i64, -170293504i64, -267142928i64, -126540104i64,
        126539144i64, 267142816i64, 170293952i64, -77922384i64, -256876336i64, -207504192i64, 26310110i64, 236738416i64,
        236739440i64, 26312262i64, -207502816i64, -256876960i64, -77923472i64, 170293072i64, 267142928i64, 126540152i64,
        -126539096i64, -267142816i64, -170294000i64, 77922328i64, 256876624i64, 207503584i64, -26311070i64, -236738864i64,
    ]
}

/// Entries 224 to 255 of `cosine_rows_2`.
pub open spec fn cos_part_2_7() -> Seq<i64> {
    seq![
        -242662784i64, -65224516i64, 159906784i64, 268112112i64, 180270288i64, -39387584i64, -230244720i64, -252743840i64,
        -90433296i64, 138003280i64, 265530032i64, 198897664i64, -13171325i64, -215609264i64, -260390832i64, -114771144i64,
        114770736i64, 260390720i64, 215609536i64, 13171783i64, -198897360i64, -265530096i64, -138003680i64, 90432864i64,
        252743008i64, 230246016i64, 39390064i64, -180268432i64, -268112240i64, -159908800i64, 65222084i64, 242661712i64,
    ]
}

/// Entries 256 to 287 of `cosine_rows_2`.
pub open spec fn cos_part_2_8() -> Seq<i64> {
    seq![
        -248002048i64, -102725928i64, 102725592i64, 248001904i64, 248002176i64, 102725784i64, -102725264i64, -248001760i64,
        -248002320i64, -102726584i64, 102724936i64, 248002016i64, 248002448i64, 102726912i64, -102724608i64, -248001488i64,
        -248002592i64, -102727240i64, 102724280i64, 248001360i64, 248002720i64, 102725680i64, -102725840i64, -248002000i64,
        -248002080i64, -102726008i64, 102725512i64, 248001872i64, 248002208i64, 102726336i64, -102725184i64, -248001728i64,
    ]
}

/// Entries 288 to 319 of `cosine_rows_2`.
pub open spec fn cos_part_2_9() -> Seq<i64> {
    seq![
        -252743824i64, -138003392i64, 39387508i64, 198897520i64, 268112096i64, 215609616i64, 65224536i64, -114770760i64,
        -242662624i64, -260390912i64, -159907376i64, 13171668i64, 180270240i64, 265530016i64, 230244944i64, 90433640i64,
        -90432568i64, -230244352i64, -265530192i64, -180271088i64, -13172812i64, 159905632i64, 260390384i64, 242663552i64,
        114772720i64, -65222432i64, -215608016i64, -268112240i64, -198899312i64, -39390416i64, 138000880i64, 252742768i64,
    ]
}

/// Entries 320 to 351 of `cosine_rows_2`.
pub open spec fn cos_part_2_10() -> Seq<i64> {
    seq![
        -256876720i64, -170293728i64, -26311360i64, 126539312i64, 236738912i64, 267142896i64, 207503744i64, 77923432i64,
        -77922720i64, -207503280i64, -267142816i64, -236739264i64, -126540424i64, 26310110i64, 170292560i64, 256876240i64,
        256876672i64, 170293712i64, 26311592i64, -126539112i64, -236738560i64, -267142960i64, -207502928i64, -77922184i64,
        77922984i64, 207503456i64, 267142848i64, 236739136i64, 126540176i64, -26310388i64, -170292784i64, -256876320i64,
    ]
}

/// Entries 352 to 383 of `cosine_rows_2`.
pub open spec fn cos_part_2_11() -> Seq<i64> {
    seq![
        -260390784i64, -198897520i64, -90433192i64, 39387592i64, 159906512i64, 242662704i64, 268112112i64, 230244928i64,
        138003936i64, 13171408i64, -114770752i64, -215609680i64, -265530080i64, -252743856i64, -180270560i64, -65225232i64,
        65223456i64, 180269200i64, 252743232i64, 265530048i64, 215609552i64, 114771480i64, -13170600i64, -138002368i64,
        -230243984i64, -268112016i64, -242663696i64, -159908800i64, -39390416i64, 90430264i64, 198898016i64, 260390880i64,
    ]
}

/// Entries 384 to 415 of `cosine_rows_2`.
pub open spec fn cos_part_2_12() -> Seq<i64> {
    seq![
        -263277552i64, -223195968i64, -149134912i64, -52369488i64, 52368952i64, 149134672i64, 223195664i64, 263277568i64,
        263277584i64, 223196272i64, 149134736i64, 52369520i64, -52368420i64, -149133792i64, -223195072i64, -263277568i64,
        -263277600i64, -223196288i64, -149135616i64, -52370556i64, 52367384i64, 149134624i64, 223194480i64, 263276960i64,
        263277408i64, 223195728i64, 149134784i64, 52369580i64, -52368356i64, -149133744i64, -223195040i64, -263277152i64,
    ]
}

/// Entries 416 to 447 of `cosine_rows_2`.
pub open spec fn cos_part_2_13() -> Seq<i64> {
    seq![
        -265530048i64, -242662848i64, -198897648i64, -138003472i64, -65224528i64, 13171007i64, 90433240i64, 159906496i64,
        215608864i64, 252743712i64, 268112080i64, 260391072i64, 230244592i64, 180270304i64, 114771456i64, 39388680i64,
        -39386188i64, -114771032i64, -180269968i64, -230244336i64, -260390464i64, -268112096i64, -252743872i64, -215609760i64,
        -159907696i64, -90434648i64, -13173524i64, 65222084i64, 138000880i64, 198898016i64, 242662880i64, 265530016i64,
    ]
}

/// Entries 448 to 479 of `cosine_rows_2`.
pub open spec fn cos_part_2_14() -> Seq<i64> {
    seq![
        -267142864i64, -256876720i64, -236738960i64, -207503632i64, -170293936i64, -126539496i64, -77923104i64, -26311212i64,
        26310806i64, 77922712i64, 126539136i64, 170293616i64, 207503056i64, 236738416i64, 256876240i64, 267142848i64,
        267142928i64, 256877072i64, 236739760i64, 207503568i64, 170294256i64, 126540760i64, 77924472i64, 26313654i64,
        -26308362i64, -77923304i64, -126539680i64, -170293312i64, -207502784i64, -236738224i64, -256876112i64, -267142608i64,
    ]
}

/// Entries 480 to 511 of `cosine_rows_2`.
pub open spec fn cos_part_2_15() -> Seq<i64> {
    seq![
        -268112112i64, -265530064i64, -260390784i64, -252743840i64, -242662864i64, -230244928i64, -215609312i64, -198897888i64,
        -180270304i64, -159907376i64, -138003648i64, -114771760i64, -90434600i64, -65224564i64, -39388340i64, -13172799i64,
        13171642i64, 39387192i64, 65223444i64, 90431584i64, 114770712i64, 138000896i64, 159907264i64, 180270192i64,
        198897104i64, 215608624i64, 230243808i64, 242661712i64, 252742768i64, 260390880i64, 265530016i64, 268112064i64,
    ]
}

/// Rows 32 to 47 of the cosine matrix.
#[verifier::opaque]
pub open spec fn cosine_rows_2() -> Seq<i64> {
    cos_part_2_0() + cos_part_2_1() + cos_part_2_2() + cos_part_2_3() + cos_part_2_4() + cos_part_2_5() + cos_part_2_6() + cos_part_2_7() + cos_part_2_8() + cos_part_2_9() + cos_part_2_10() + cos_part_2_11() + cos_part_2_12() + cos_part_2_13() + cos_part_2_14() + cos_part_2_15()
}

/// Rows 32 to 47 of the cosine matrix.
fn cosine_rows_32_47() -> (r: Vec<i64>)
    ensures
        r@ == cosine_rows_2(),
        r@.len() == 512,
{
    let mut r: Vec<i64> = Vec::new();
    r.extend_from_slice(
        &[
            -189812528, 189812528, 189812544, -189812336, -189812720, 189812336, 189812720, -189812336,
            -189813088, 189812336, 189813104, -189812320, -189813104, 189812320, 189813104, -189812320,
            -189812384, 189811584, 189813120, -189812304, -189812400, 189811584, 189813120, -189812304,
            -189813856, 189811568, 189813136, -189812288, -189812416, 189813008, 189814592, -189810832,
        ],
    );
    r.extend_from_slice(
        &[
            -198897584, 159906720, 230244864, -114770928, -252743840, 65224328, 265530080, -13171687,
            -268112096, -39387636, 260390640, 90433304, -242662464, -138003648, 215609472, 180271312,
            -180269472, -215609728, 138003264, 242662656, -90431920, -260391008, 39387192, 268112112,
            13173155, -265529872, -65225256, 252743008, 114772720, -230243984, -159907696, 198897104,
        ],
    );
    r.extend_from_slice(
        &[
            -207503424, 126539512, 256876752, -26310998, -267142880, -77922768, 236738832, 170293936,
            -170293632, -236739264, 77922392, 267142864, 26311902, -256876336, -126540424, 207503056,
            207503552, -126539728, -256877168, 26310096, 267142784, 77923144, -236738880, -170295040,
            170292544, 236739440, -77922016, -267142896, -26311274, 256876816, 126538960, -207501504,
        ],
    );
    r.extend_from_slice(
        &[
            -215609408, 90433104, 268112112, 65224524, -230244640, -198897536, 114770768, 265530032,
            39388308, -242662624, -180270304, 138002704, 260390912, 13171757, -252743824, -159906560,
            159905648, 252744208, -13170626, -260390640, -138003664, 180270208, 242663536, -39386176,
            -265529872, -114771792, 198895744, 230246016, -65222432, -268112016, -90434648, 215608624,
        ],
    );
    r.extend_from_slice(
        &[
            -223195936, 52369092, 263277552, 149134992, -149134688, -263277616, -52369832, 223195664,
            223196064, -52369108, -263277376, -149135296, 149134368, 263277792, 52370192, -223195456,
            -223196272, 52368744, 263277504, 149134752, -149134928, -263277856, -52370556, 223195248,
            223196480, -52368384, -263277424, -149135056, 149134608, 263277536, 52368908, -223196176,
        ],
    );
    r.extend_from_slice(
        &[
            -230244768, 13171450, 242662704, 215609408, -39387252, -252743712, -198897648, 65224484,
            260390816, 180270800, -90432592, -265529968, -159907104, 114770744, 268112112, 138003360,
            -138003568, -268112096, -114772392, 159905648, 265530240, 90434304, -180269456, -260391008,
            -65225256, 198895744, 252744672, 39390064, -215608016, -242663696, -13173524, 230243808,
        ],
    );
    r.extend_from_slice(
        &[
            -236738960, -26311312, 207503344, 256876800, 77922928, -170293504, -267142928, -126540104,
            126539144, 267142816, 170293952, -77922384, -256876336, -207504192, 26310110, 236738416,
            236739440, 26312262, -207502816, -256876960, -77923472, 170293072, 267142928, 126540152,
            -126539096, -267142816, -170294000, 77922328, 256876624, 207503584, -26311070, -236738864,
        ],
    );
    r.extend_from_slice(
        &[
            -242662784, -65224516, 159906784, 268112112, 180270288, -39387584, -230244720, -252743840,
            -90433296, 138003280, 265530032, 198897664, -13171325, -215609264, -260390832, -114771144,
            114770736, 260390720, 215609536, 13171783, -198897360, -265530096, -138003680, 90432864,
            252743008, 230246016, 39390064, -180268432, -268112240, -159908800, 65222084, 242661712,
        ],
    );
    r.extend_from_slice(
        &[
            -248002048, -102725928, 102725592, 248001904, 248002176, 102725784, -102725264, -248001760,
            -248002320, -102726584, 102724936, 248002016, 248002448, 102726912, -102724608, -248001488,
            -248002592, -102727240, 102724280, 248001360, 248002720, 102725680, -102725840, -248002000,
            -248002080, -102726008, 102725512, 248001872, 248002208, 102726336, -102725184, -248001728,
        ],
    );
    r.extend_from_slice(
        &[
            -252743824, -138003392, 39387508, 198897520, 268112096, 215609616, 65224536, -114770760,
            -242662624, -260390912, -159907376, 13171668, 180270240, 265530016, 230244944, 90433640,
            -90432568, -230244352, -265530192, -180271088, -13172812, 159905632, 260390384, 242663552,
            114772720, -65222432, -215608016, -268112240, -198899312, -39390416, 138000880, 252742768,
        ],
    );
    r.extend_from_slice(
        &[
            -256876720, -170293728, -26311360, 126539312, 236738912, 267142896, 207503744, 77923432,
            -77922720, -207503280, -267142816, -236739264, -126540424, 26310110, 170292560, 256876240,
            256876672, 170293712, 26311592, -126539112, -236738560, -267142960, -207502928, -77922184,
            77922984, 207503456, 267142848, 236739136, 126540176, -26310388, -170292784, -256876320,
        ],
    );
    r.extend_from_slice(
        &[
            -260390784, -198897520, -90433192, 39387592, 159906512, 242662704, 268112112, 230244928,
            138003936, 13171408, -114770752, -215609680, -265530080, -252743856, -180270560, -65225232,
            65223456, 180269200, 252743232, 265530048, 215609552, 114771480, -13170600, -138002368,
            -230243984, -268112016, -242663696, -159908800, -39390416, 90430264, 198898016, 260390880,
        ],
    );
    r.extend_from_slice(
        &[
            -263277552, -223195968, -149134912, -52369488, 52368952, 149134672, 223195664, 263277568,
            263277584, 223196272, 149134736, 52369520, -52368420, -149133792, -223195072, -263277568,
            -263277600, -223196288, -149135616, -52370556, 52367384, 149134624, 223194480, 263276960,
            263277408, 223195728, 149134784, 52369580, -52368356, -149133744, -223195040, -263277152,
        ],
    );
    r.extend_from_slice(
        &[
            -265530048, -242662848, -198897648, -138003472, -65224528, 13171007, 90433240, 159906496,
            215608864, 252743712, 268112080, 260391072, 230244592, 180270304, 114771456, 39388680,
            -39386188, -114771032, -180269968, -230244336, -260390464, -268112096, -252743872, -215609760,
            -159907696, -90434648, -13173524, 65222084, 138000880, 198898016, 242662880, 265530016,
        ],
    );
    r.extend_from_slice(
        &[
            -267142864, -256876720, -236738960, -207503632, -170293936, -126539496, -77923104, -26311212,
            26310806, 77922712, 126539136, 170293616, 207503056, 236738416, 256876240, 267142848,
            267142928, 256877072, 236739760, 207503568, 170294256, 126540760, 77924472, 26313654,
            -26308362, -77923304, -126539680, -170293312, -207502784, -236738224, -256876112, -267142608,
        ],
    );
    r.extend_from_slice(
        &[
            -268112112, -265530064, -260390784, -252743840, -242662864, -230244928, -215609312, -198897888,
            -180270304, -159907376, -138003648, -114771760, -90434600, -65224564, -39388340, -13172799,
            13171642, 39387192, 65223444, 90431584, 114770712, 138000896, 159907264, 180270192,
            198897104, 215608624, 230243808, 242661712, 252742768, 260390880, 265530016, 268112064,
        ],
    );
    proof {
        reveal(cosine_rows_2);
    }
    assert(r@ =~= cosine_rows_2());
    r
}

/// Entries 0 to 31 of `cosine_rows_3`.
pub open spec fn cos_part_3_0() -> Seq<i64> {
    seq![
        -268435456i64, -268435456i64, -268435456i64, -268435456i64, -268435456i64, -268435456i64, -268435456i64, -268435456i64,
        -268435456i64, -268435456i64, -268435456i64, -268435456i64, -268435456i64, -268435456i64, -268435456i64, -268435456i64,
        -268435456i64, -268435456i64, -268435456i64, -268435456i64, -268435456i64, -268435456i64, -268435456i64, -268435456i64,
        -268435456i64, -268435456i64, -268435456i64, -268435456i64, -268435456i64, -268435456i64, -268435456i64, -268435456i64,
    ]
}

/// Entries 32 to 63 of `cosine_rows_3`.
pub open spec fn cos_part_3_1() -> Seq<i64> {
    seq![
        -268112112i64, -265530032i64, -260390752i64, -252743776i64, -242662624i64, -230244720i64, -215609488i64, -198897152i64,
        -180269984i64, -159906752i64, -138003568i64, -114770432i64, -90431928i64, -65224456i64, -39386868i64, -13169940i64,
        13171783i64, 39388692i64, 65226244i64, 90433664i64, 114772104i64, 138005152i64, 159909072i64, 180269840i64,
        198897712i64, 215609968i64, 230245664i64, 242663856i64, 252744912i64, 260390768i64, 265530144i64, 268112192i64,
    ]
}

/// Entries 64 to 95 of `cosine_rows_3`.
pub open spec fn cos_part_3_2() -> Seq<i64> {
    seq![
        -267142864i64, -256876720i64, -236738912i64, -207503184i64, -170293504i64, -126539152i64, -77922400i64, -26311148i64,
        26311218i64, 77923448i64, 126540120i64, 170294752i64, 207503552i64, 236739440i64, 256876672i64, 267142928i64,
        267142720i64, 256876624i64, 236738400i64, 207503456i64, 170291472i64, 126539992i64, 77922328i64, 26310058i64,
        -26313326i64, -77925472i64, -126539280i64, -170294016i64, -207504240i64, -236739952i64, -256877584i64, -267142832i64,
    ]
}

/// Entries 96 to 127 of `cosine_rows_3`.
pub open spec fn cos_part_3_3() -> Seq<i64> {
    seq![
        -265530048i64, -242662736i64, -198897392i64, -138003312i64, -65224492i64, 13171395i64, 90433936i64, 159907376i64,
        215609728i64, 252743968i64, 268112176i64, 260390720i64, 230244176i64, 180270224i64, 114770112i64, 39387872i64,
        -39388352i64, -114772400i64, -180270576i64, -230244432i64, -260390848i64, -268112064i64, -252743120i64, -215607600i64,
        -159906976i64, -90432520i64, -13169888i64, 65226948i64, 138006352i64, 198897728i64, 242663280i64, 265530352i64,
    ]
}

/// Entries 128 to 159 of `cosine_rows_3`.
pub open spec fn cos_part_3_4() -> Seq<i64> {
    seq![
        -263277536i64, -223195808i64, -149134832i64, -52368788i64, 52369492i64, 149135008i64, 223196064i64, 263277584i64,
        263277504i64, 223195840i64, 149134656i64, 52368084i64, -52369196i64, -149135600i64, -223195904i64, -263277728i64,
        -263277568i64, -223195440i64, -149133200i64, -52368384i64, 52370904i64, 149137040i64, 223195728i64, 263277664i64,
        263277232i64, 223194480i64, 149135168i64, 52368680i64, -52370604i64, -149136800i64, -223197840i64, -263277616i64,
    ]
}

/// Entries 160 to 191 of `cosine_rows_3`.
pub open spec fn cos_part_3_5() -> Seq<i64> {
    seq![
        -260390784i64, -198897520i64, -90433096i64, 39387788i64, 159906944i64, 242663088i64, 268112080i64, 230244368i64,
        138002704i64, 13171668i64, -114771760i64, -215609328i64, -265530192i64, -252743824i64, -180269456i64, -65224440i64,
        65225576i64, 180270336i64, 252744208i64, 265529712i64, 215609840i64, 114770696i64, -13172837i64, -138005456i64,
        -230244448i64, -268112128i64, -242662144i64, -159904768i64, -39388148i64, 90433712i64, 198898640i64, 260391440i64,
    ]
}

/// Entries 192 to 223 of `cosine_rows_3`.
pub open spec fn cos_part_3_6() -> Seq<i64> {
    seq![
        -256876704i64, -170293520i64, -26310998i64, 126539944i64, 236738928i64, 267142864i64, 207503280i64, 77922392i64,
        -77923112i64, -207503760i64, -267142832i64, -236738576i64, -126539728i64, 26312262i64, 170293712i64, 256877072i64,
        256876624i64, 170292544i64, 26310754i64, -126539256i64, -236739296i64, -267142688i64, -207501504i64, -77922648i64,
        77923840i64, 207504896i64, 267142800i64, 236738704i64, 126538152i64, -26314034i64, -170293504i64, -256876992i64,
    ]
}

/// Entries 224 to 255 of `cosine_rows_3`.
pub open spec fn cos_part_3_7() -> Seq<i64> {
    seq![
        -252743808i64, -138003392i64, 39387616i64, 198897648i64, 268112128i64, 215609072i64, 65223820i64, -114771744i64,
        -242662800i64, -260390480i64, -159906480i64, 13171084i64, 180270816i64, 265530048i64, 230244176i64, 90432880i64,
        -90434624i64, -230245136i64, -265530064i64, -180269440i64, -13169228i64, 159906320i64, 260390928i64, 242662000i64,
        114768216i64, -65224628i64, -215610176i64, -268111984i64, -198897776i64, -39386792i64, 138005200i64, 252744928i64,
    ]
}

/// Entries 256 to 287 of `cosine_rows_3`.
pub open spec fn cos_part_3_8() -> Seq<i64> {
    seq![
        -248002016i64, -102725680i64, 102725928i64, 248002176i64, 248001968i64, 102725896i64, -102725952i64, -248002192i64,
        -248001760i64, -102725880i64, 102726912i64, 248002192i64, 248002144i64, 102724912i64, -102725984i64, -248002592i64,
        -248001744i64, -102725840i64, 102726952i64, 248002992i64, 248002128i64, 102724880i64, -102727912i64, -248001824i64,
        -248001728i64, -102723912i64, 102728872i64, 248002224i64, 248001328i64, 102722952i64, -102726056i64, -248002624i64,
    ]
}

/// Entries 288 to 319 of `cosine_rows_3`.
pub open spec fn cos_part_3_9() -> Seq<i64> {
    seq![
        -242662768i64, -65224504i64, 159907072i64, 268112128i64, 180270256i64, -39387968i64, -230245104i64, -252743824i64,
        -90432904i64, 138003936i64, 265530032i64, 198896688i64, -13172113i64, -215609328i64, -260390464i64, -114770408i64,
        114770856i64, 260391088i64, 215607824i64, 13171616i64, -198898384i64, -265529664i64, -138003520i64, 90434336i64,
        252744688i64, 230244848i64, 39386464i64, -180272144i64, -268112128i64, -159905856i64, 65226972i64, 242662704i64,
    ]
}

/// Entries 320 to 351 of `cosine_rows_3`.
pub open spec fn cos_part_3_10() -> Seq<i64> {
    seq![
        -236738928i64, -26311172i64, 207503408i64, 256876592i64, 77922400i64, -170294208i64, -267142848i64, -126539144i64,
        126540416i64, 267142992i64, 170293088i64, -77922808i64, -256877168i64, -207502816i64, 26311592i64, 236739760i64,
        236738400i64, 26310754i64, -207503360i64, -256876320i64, -77920040i64, 170293744i64, 267142720i64, 126536968i64,
        -126539880i64, -267143040i64, -170291184i64, 77923208i64, 256877280i64, 207501264i64, -26312010i64, -236739968i64,
    ]
}

/// Entries 352 to 383 of `cosine_rows_3`.
pub open spec fn cos_part_3_11() -> Seq<i64> {
    seq![
        -230244752i64, 13171463i64, 242662864i64, 215609280i64, -39388300i64, -252743840i64, -198897152i64, 65224548i64,
        260390912i64, 180270240i64, -90434600i64, -265530192i64, -159906464i64, 114770848i64, 268112176i64, 138002672i64,
        -138003680i64, -268112128i64, -114769776i64, 159909072i64, 265530016i64, 90431560i64, -180272624i64, -260390624i64,
        -65222404i64, 198897264i64, 252743440i64, 39385104i64, -215609376i64, -242662128i64, -13168491i64, 230244992i64,
    ]
}

/// Entries 384 to 415 of `cosine_rows_3`.
pub open spec fn cos_part_3_12() -> Seq<i64> {
    seq![
        -223195904i64, 52369228i64, 263277616i64, 149134400i64, -149134720i64, -263277440i64, -52369108i64, 223196272i64,
        223195840i64, -52369856i64, -263277584i64, -149134928i64, 149135888i64, 263277376i64, 52368732i64, -223195904i64,
        -223195056i64, 52370228i64, 263278064i64, 149134608i64, -149136208i64, -263277696i64, -52368356i64, 223197264i64,
        223195984i64, -52370604i64, -263278144i64, -149134288i64, 149136512i64, 263277616i64, 52367984i64, -223197472i64,
    ]
}

/// Entries 416 to 447 of `cosine_rows_3`.
pub open spec fn cos_part_3_13() -> Seq<i64> {
    seq![
        -215609376i64, 90433352i64, 268112112i64, 65224328i64, -230244928i64, -198897616i64, 114771432i64, 265530032i64,
        39387900i64, -242663392i64, -180269472i64, 138003952i64, 260390720i64, 13171642i64, -252744320i64, -159905904i64,
        159907408i64, 252743008i64, -13171465i64, -260391168i64, -138004112i64, 180270864i64, 242661712i64, -39387724i64,
        -265530304i64, -114767888i64, 198898192i64, 230243440i64, -65224652i64, -268112208i64, -90429904i64, 215610000i64,
    ]
}

/// Entries 448 to 479 of `cosine_rows_3`.
pub open spec fn cos_part_3_14() -> Seq<i64> {
    seq![
        -207503392i64, 126539632i64, 256876640i64, -26311708i64, -267142928i64, -77922400i64, 236738944i64, 170293104i64,
        -170293952i64, -236738896i64, 77922480i64, 267142720i64, 26310096i64, -256876960i64, -126539112i64, 207503568i64,
        207503456i64, -126539256i64, -256876320i64, 26314338i64, 267142928i64, 77920360i64, -236738976i64, -170292240i64,
        170293232i64, 236738384i64, -77925496i64, -267142816i64, -26308994i64, 256876688i64, 126538128i64, -207505568i64,
    ]
}

/// Entries 480 to 511 of `cosine_rows_3`.
pub open spec fn cos_part_3_15() -> Seq<i64> {
    seq![
        -198897552i64, 159906944i64, 230244816i64, -114771112i64, -252743824i64, 65225200i64, 265529968i64, -13171751i64,
        -268112160i64, -39386880i64, 260390912i64, 90432888i64, -242662816i64, -138003552i64, 215610352i64, 180269200i64,
        -180271088i64, -215608832i64, 138005744i64, 242662592i64, -90435296i64, -260390784i64, 39389408i64, 268112144i64,
        13170219i64, -265530496i64, -65223712i64, 252744688i64, 114770648i64, -230245872i64, -159906944i64, 198898656i64,
    ]
}

/// Rows 48 to 63 of the cosine matrix.
#[verifier::opaque]
pub open spec fn cosine_rows_3() -> Seq<i64> {
    cos_part_3_0() + cos_part_3_1() + cos_part_3_2() + cos_part_3_3() + cos_part_3_4() + cos_part_3_5() + cos_part_3_6() + cos_part_3_7() + cos_part_3_8() + cos_part_3_9() + cos_part_3_10() + cos_part_3_11() + cos_part_3_12() + cos_part_3_13() + cos_part_3_14() + cos_part_3_15()
}

/// Rows 48 to 63 of the cosine matrix.
fn cosine_rows_48_63() -> (r: Vec<i64>)
    ensures
        r@ == cosine_rows_3(),
        r@.len() == 512,
{
    let mut r: Vec<i64> = Vec::new();
    r.extend_from_slice(
        &[
            -268435456, -268435456, -268435456, -268435456, -268435456, -268435456, -268435456, -268435456,
            -268435456, -268435456, -268435456, -268435456, -268435456, -268435456, -268435456, -268435456,
            -268435456, -268435456, -268435456, -268435456, -268435456, -268435456, -268435456, -268435456,
            -268435456, -268435456, -268435456, -268435456, -268435456, -268435456, -268435456, -268435456,
        ],
    );
    r.extend_from_slice(
        &[
            -268112112, -265530032, -260390752, -252743776, -242662624, -230244720, -215609488, -198897152,
            -180269984, -159906752, -138003568, -114770432, -90431928, -65224456, -39386868, -13169940,
            13171783, 39388692, 65226244, 90433664, 114772104, 138005152, 159909072, 180269840,
            198897712, 215609968, 230245664, 242663856, 252744912, 260390768, 265530144, 268112192,
        ],
    );
    r.extend_from_slice(
        &[
            -267142864, -256876720, -236738912, -207503184, -170293504, -126539152, -77922400, -26311148,
            26311218, 77923448, 126540120, 170294752, 207503552, 236739440, 256876672, 267142928,
            267142720, 256876624, 236738400, 207503456, 170291472, 126539992, 77922328, 26310058,
            -26313326, -77925472, -126539280, -170294016, -207504240, -236739952, -256877584, -267142832,
        ],
    );
    r.extend_from_slice(
        &[
            -265530048, -242662736, -198897392, -138003312, -65224492, 13171395, 90433936, 159907376,
            215609728, 252743968, 268112176, 260390720, 230244176, 180270224, 114770112, 39387872,
            -39388352, -114772400, -180270576, -230244432, -260390848, -268112064, -252743120, -215607600,
            -159906976, -90432520, -13169888, 65226948, 138006352, 198897728, 242663280, 265530352,
        ],
    );
    r.extend_from_slice(
        &[
            -263277536, -223195808, -149134832, -52368788, 52369492, 149135008, 223196064, 263277584,
            263277504, 223195840, 149134656, 52368084, -52369196, -149135600, -223195904, -263277728,
            -263277568, -223195440, -149133200, -52368384, 52370904, 149137040, 223195728, 263277664,
            263277232, 223194480, 149135168, 52368680, -52370604, -149136800, -223197840, -263277616,
        ],
    );
    r.extend_from_slice(
        &[
            -260390784, -198897520, -90433096, 39387788, 159906944, 242663088, 268112080, 230244368,
            138002704, 13171668, -114771760, -215609328, -265530192, -252743824, -180269456, -65224440,
            65225576, 180270336, 252744208, 265529712, 215609840, 114770696, -13172837, -138005456,
            -230244448, -268112128, -242662144, -159904768, -39388148, 90433712, 198898640, 260391440,
        ],
    );
    r.extend_from_slice(
        &[
            -256876704, -170293520, -26310998, 126539944, 236738928, 267142864, 207503280, 77922392,
            -77923112, -207503760, -267142832, -236738576, -126539728, 26312262, 170293712, 256877072,
            256876624, 170292544, 26310754, -126539256, -236739296, -267142688, -207501504, -77922648,
            77923840, 207504896, 267142800, 236738704, 126538152, -26314034, -170293504, -256876992,
        ],
    );
    r.extend_from_slice(
        &[
            -252743808, -138003392, 39387616, 198897648, 268112128, 215609072, 65223820, -114771744,
            -242662800, -260390480, -159906480, 13171084, 180270816, 265530048, 230244176, 90432880,
            -90434624, -230245136, -265530064, -180269440, -13169228, 159906320, 260390928, 242662000,
            114768216, -65224628, -215610176, -268111984, -198897776, -39386792, 138005200, 252744928,
        ],
    );
    r.extend_from_slice(
        &[
            -248002016, -102725680, 102725928, 248002176, 248001968, 102725896, -102725952, -248002192,
            -248001760, -102725880, 102726912, 248002192, 248002144, 102724912, -102725984, -248002592,
            -248001744, -102725840, 102726952, 248002992, 248002128, 102724880, -102727912, -248001824,
            -248001728, -102723912, 102728872, 248002224, 248001328, 102722952, -102726056, -248002624,
        ],
    );
    r.extend_from_slice(
        &[
            -242662768, -65224504, 159907072, 268112128, 180270256, -39387968, -230245104, -252743824,
            -90432904, 138003936, 265530032, 198896688, -13172113, -215609328, -260390464, -114770408,
            114770856, 260391088, 215607824, 13171616, -198898384, -265529664, -138003520, 90434336,
            252744688, 230244848, 39386464, -180272144, -268112128, -159905856, 65226972, 242662704,
        ],
    );
    r.extend_from_slice(
        &[
            -236738928, -26311172, 207503408, 256876592, 77922400, -170294208, -267142848, -126539144,
            126540416, 267142992, 170293088, -77922808, -256877168, -207502816, 26311592, 236739760,
            236738400, 26310754, -207503360, -256876320, -77920040, 170293744, 267142720, 126536968,
            -126539880, -267143040, -170291184, 77923208, 256877280, 207501264, -26312010, -236739968,
        ],
    );
    r.extend_from_slice(
        &[
            -230244752, 13171463, 242662864, 215609280, -39388300, -252743840, -198897152, 65224548,
            260390912, 180270240, -90434600, -265530192, -159906464, 114770848, 268112176, 138002672,
            -138003680, -268112128, -114769776, 159909072, 265530016, 90431560, -180272624, -260390624,
            -65222404, 198897264, 252743440, 39385104, -215609376, -242662128, -13168491, 230244992,
        ],
    );
    r.extend_from_slice(
        &[
            -223195904, 52369228, 263277616, 149134400, -149134720, -263277440, -52369108, 223196272,
            223195840, -52369856, -263277584, -149134928, 149135888, 263277376, 52368732, -223195904,
            -223195056, 52370228, 263278064, 149134608, -149136208, -263277696, -52368356, 223197264,
            223195984, -52370604, -263278144, -149134288, 149136512, 263277616, 52367984, -223197472,
        ],
    );
    r.extend_from_slice(
        &[
            -215609376, 90433352, 268112112, 65224328, -230244928, -198897616, 114771432, 265530032,
            39387900, -242663392, -180269472, 138003952, 260390720, 13171642, -252744320, -159905904,
            159907408, 252743008, -13171465, -260391168, -138004112, 180270864, 242661712, -39387724,
            -265530304, -114767888, 198898192, 230243440, -65224652, -268112208, -90429904, 215610000,
        ],
    );
    r.extend_from_slice(
        &[
            -207503392, 126539632, 256876640, -26311708, -267142928, -77922400, 236738944, 170293104,
            -170293952, -236738896, 77922480, 267142720, 26310096, -256876960, -126539112, 207503568,
            207503456, -126539256, -256876320, 26314338, 267142928, 77920360, -236738976, -170292240,
            170293232, 236738384, -77925496, -267142816, -26308994, 256876688, 126538128, -207505568,
        ],
    );
    r.extend_from_slice(
        &[
            -198897552, 159906944, 230244816, -114771112, -252743824, 65225200, 265529968, -13171751,
            -268112160, -39386880, 260390912, 90432888, -242662816, -138003552, 215610352, 180269200,
            -180271088, -215608832, 138005744, 242662592, -90435296, -260390784, 39389408, 268112144,
            13170219, -265530496, -65223712, 252744688, 114770648, -230245872, -159906944, 198898656,
        ],
    );
    proof {
        reveal(cosine_rows_3);
    }
    assert(r@ =~= cosine_rows_3());
    r
}

/// `cos((16 + i) * (2j + 1) * pi / 64)` in 28-bit fixed point, at `32 * i + j`.
#[verifier::opaque]
pub open spec fn cosine_table() -> Seq<i64> {
    cosine_rows_0() + cosine_rows_1() + cosine_rows_2() + cosine_rows_3()
}

/// `cos((16 + i) * (2j + 1) * pi / 64)` in 28-bit fixed point, at `32 * i + j`.
pub fn cosine_matrix() -> (r: Vec<i64>)
    ensures
        r@ == cosine_table(),
        r@.len() == 2048,
{
    let mut r = cosine_rows_0_15();
    let mut b = cosine_rows_16_31();
    r.append(&mut b);
    let mut c = cosine_rows_32_47();
    r.append(&mut c);
    let mut d = cosine_rows_48_63();
    r.append(&mut d);
    proof {
        reveal(cosine_table);
    }
    proof {
        reveal(cosine_table);
    }
    assert(r@ =~= cosine_table());
    r
}

} // verus!
