//! Experience rewards the engine hardcodes rather than storing in data files.

use vstd::prelude::*;

verus! {

/// The hardcoded experience of the Empire of Cats chapters, by stage.
pub open spec fn eoc_xp() -> Seq<u32> {
    seq![
        1000, 1300, 1600, 1900, 2200, 2500, 2800, 2800,
        3400, 3700, 4000, 4300, 4600, 4900, 5200, 5500,
        5800, 6100, 6400, 6400, 7000, 7300, 7600, 7900,
        8200, 8500, 8800, 9100, 9400, 9700, 10000, 10300,
        10600, 10600, 11200, 11500, 11800, 12100, 12400, 12700,
        13000, 13300, 13600, 13900, 14200, 14500, 14800, 15100,
    ]
}

/// The hardcoded experience of the Into the Future chapters, by stage.
pub open spec fn itf_xp() -> Seq<u32> {
    seq![
        1000, 1300, 1600, 1900, 2200, 2500, 2800, 3100,
        3400, 3700, 4000, 4300, 4600, 4900, 5200, 5500,
        5800, 5500, 6400, 6700, 7000, 7300, 7600, 7900,
        8200, 7300, 8800, 9100, 9400, 9700, 10000, 10300,
        10600, 10900, 11200, 11500, 11800, 11500, 12400, 12700,
        13000, 13300, 13600, 13900, 13900, 13900, 14200, 14500,
    ]
}

/// The hardcoded experience of the Cats of the Cosmos chapters, by stage.
pub open spec fn cotc_xp() -> Seq<u32> {
    seq![
        1000, 1300, 1600, 1900, 2200, 2500, 2800, 3100,
        3400, 3700, 4000, 4300, 4600, 4900, 5200, 5500,
        5800, 6100, 6400, 6700, 7000, 7300, 7600, 7900,
        8200, 8500, 8800, 9700, 9400, 9700, 10000, 10300,
        10600, 10900, 11200, 11200, 11800, 12100, 12400, 12700,
        13000, 13300, 13600, 13900, 13900, 13900, 14200, 14500,
    ]
}

/// The hardcoded experience of a stage.
pub open spec fn hardcoded_xp(global_map_id: u32, stage_id: usize) -> u32 {
    if stage_id >= 48 {
        0
    } else if 3000 <= global_map_id && global_map_id <= 3002 {
        eoc_xp()[stage_id as int]
    } else if 3003 <= global_map_id && global_map_id <= 3005 {
        itf_xp()[stage_id as int]
    } else if 3006 <= global_map_id && global_map_id <= 3008 {
        cotc_xp()[stage_id as int]
    } else {
        0
    }
}

/// The experience the engine hardcodes: each of the three main story chapters
/// has its own table of forty-eight stages, shared by the three maps of that
/// chapter, and every other map, and every stage past the forty-eighth, gets
/// none.
pub proof fn lemma_hardcoded_xp_tables(global_map_id: u32, stage_id: usize)
    ensures
        stage_id >= 48 ==> hardcoded_xp(global_map_id, stage_id) == 0,
        !(3000 <= global_map_id <= 3008) ==> hardcoded_xp(global_map_id, stage_id) == 0,
        stage_id < 48 && 3000 <= global_map_id <= 3002
            ==> hardcoded_xp(global_map_id, stage_id) == seq![1000u32, 1300u32, 1600u32, 1900u32, 2200u32, 2500u32, 2800u32, 2800u32, 3400u32, 3700u32, 4000u32, 4300u32, 4600u32, 4900u32, 5200u32, 5500u32, 5800u32, 6100u32, 6400u32, 6400u32, 7000u32, 7300u32, 7600u32, 7900u32, 8200u32, 8500u32, 8800u32, 9100u32, 9400u32, 9700u32, 10000u32, 10300u32, 10600u32, 10600u32, 11200u32, 11500u32, 11800u32, 12100u32, 12400u32, 12700u32, 13000u32, 13300u32, 13600u32, 13900u32, 14200u32, 14500u32, 14800u32, 15100u32][stage_id as int],
        stage_id < 48 && 3003 <= global_map_id <= 3005
            ==> hardcoded_xp(global_map_id, stage_id) == seq![1000u32, 1300u32, 1600u32, 1900u32, 2200u32, 2500u32, 2800u32, 3100u32, 3400u32, 3700u32, 4000u32, 4300u32, 4600u32, 4900u32, 5200u32, 5500u32, 5800u32, 5500u32, 6400u32, 6700u32, 7000u32, 7300u32, 7600u32, 7900u32, 8200u32, 7300u32, 8800u32, 9100u32, 9400u32, 9700u32, 10000u32, 10300u32, 10600u32, 10900u32, 11200u32, 11500u32, 11800u32, 11500u32, 12400u32, 12700u32, 13000u32, 13300u32, 13600u32, 13900u32, 13900u32, 13900u32, 14200u32, 14500u32][stage_id as int],
        stage_id < 48 && 3006 <= global_map_id <= 3008
            ==> hardcoded_xp(global_map_id, stage_id) == seq![1000u32, 1300u32, 1600u32, 1900u32, 2200u32, 2500u32, 2800u32, 3100u32, 3400u32, 3700u32, 4000u32, 4300u32, 4600u32, 4900u32, 5200u32, 5500u32, 5800u32, 6100u32, 6400u32, 6700u32, 7000u32, 7300u32, 7600u32, 7900u32, 8200u32, 8500u32, 8800u32, 9700u32, 9400u32, 9700u32, 10000u32, 10300u32, 10600u32, 10900u32, 11200u32, 11200u32, 11800u32, 12100u32, 12400u32, 12700u32, 13000u32, 13300u32, 13600u32, 13900u32, 13900u32, 13900u32, 14200u32, 14500u32][stage_id as int],
{
    assert(eoc_xp() =~= seq![1000u32, 1300u32, 1600u32, 1900u32, 2200u32, 2500u32, 2800u32, 2800u32, 3400u32, 3700u32, 4000u32, 4300u32, 4600u32, 4900u32, 5200u32, 5500u32, 5800u32, 6100u32, 6400u32, 6400u32, 7000u32, 7300u32, 7600u32, 7900u32, 8200u32, 8500u32, 8800u32, 9100u32, 9400u32, 9700u32, 10000u32, 10300u32, 10600u32, 10600u32, 11200u32, 11500u32, 11800u32, 12100u32, 12400u32, 12700u32, 13000u32, 13300u32, 13600u32, 13900u32, 14200u32, 14500u32, 14800u32, 15100u32]);
    assert(itf_xp() =~= seq![1000u32, 1300u32, 1600u32, 1900u32, 2200u32, 2500u32, 2800u32, 3100u32, 3400u32, 3700u32, 4000u32, 4300u32, 4600u32, 4900u32, 5200u32, 5500u32, 5800u32, 5500u32, 6400u32, 6700u32, 7000u32, 7300u32, 7600u32, 7900u32, 8200u32, 7300u32, 8800u32, 9100u32, 9400u32, 9700u32, 10000u32, 10300u32, 10600u32, 10900u32, 11200u32, 11500u32, 11800u32, 11500u32, 12400u32, 12700u32, 13000u32, 13300u32, 13600u32, 13900u32, 13900u32, 13900u32, 14200u32, 14500u32]);
    assert(cotc_xp() =~= seq![1000u32, 1300u32, 1600u32, 1900u32, 2200u32, 2500u32, 2800u32, 3100u32, 3400u32, 3700u32, 4000u32, 4300u32, 4600u32, 4900u32, 5200u32, 5500u32, 5800u32, 6100u32, 6400u32, 6700u32, 7000u32, 7300u32, 7600u32, 7900u32, 8200u32, 8500u32, 8800u32, 9700u32, 9400u32, 9700u32, 10000u32, 10300u32, 10600u32, 10900u32, 11200u32, 11200u32, 11800u32, 12100u32, 12400u32, 12700u32, 13000u32, 13300u32, 13600u32, 13900u32, 13900u32, 13900u32, 14200u32, 14500u32]);
}

/// Returns the experience reward for a stage whose value the engine hardcodes.
///
/// The three main story chapters omit these values from their stage
/// metadata, so they are reproduced here. Other maps yield zero, as does a
/// stage index past the chapter's forty-eight stages.
pub fn get_hardcoded_xp(global_map_id: u32, stage_id: usize) -> (r: u32)
    ensures
        r == hardcoded_xp(global_map_id, stage_id),
{
    if stage_id >= 48 {
        return 0;
    }
    if 3000 <= global_map_id && global_map_id <= 3002 {
        let table: [u32; 48] = [
            1000, 1300, 1600, 1900, 2200, 2500, 2800, 2800,
            3400, 3700, 4000, 4300, 4600, 4900, 5200, 5500,
            5800, 6100, 6400, 6400, 7000, 7300, 7600, 7900,
            8200, 8500, 8800, 9100, 9400, 9700, 10000, 10300,
            10600, 10600, 11200, 11500, 11800, 12100, 12400, 12700,
            13000, 13300, 13600, 13900, 14200, 14500, 14800, 15100,
        ];
        assert(table@ =~= eoc_xp());
        table[stage_id]
    } else if 3003 <= global_map_id && global_map_id <= 3005 {
        let table: [u32; 48] = [
            1000, 1300, 1600, 1900, 2200, 2500, 2800, 3100,
            3400, 3700, 4000, 4300, 4600, 4900, 5200, 5500,
            5800, 5500, 6400, 6700, 7000, 7300, 7600, 7900,
            8200, 7300, 8800, 9100, 9400, 9700, 10000, 10300,
            10600, 10900, 11200, 11500, 11800, 11500, 12400, 12700,
            13000, 13300, 13600, 13900, 13900, 13900, 14200, 14500,
        ];
        assert(table@ =~= itf_xp());
        table[stage_id]
    } else if 3006 <= global_map_id && global_map_id <= 3008 {
        let table: [u32; 48] = [
            1000, 1300, 1600, 1900, 2200, 2500, 2800, 3100,
            3400, 3700, 4000, 4300, 4600, 4900, 5200, 5500,
            5800, 6100, 6400, 6700, 7000, 7300, 7600, 7900,
            8200, 8500, 8800, 9700, 9400, 9700, 10000, 10300,
            10600, 10900, 11200, 11200, 11800, 12100, 12400, 12700,
            13000, 13300, 13600, 13900, 13900, 13900, 14200, 14500,
        ];
        assert(table@ =~= cotc_xp());
        table[stage_id]
    } else {
        0
    }
}

} // verus!
