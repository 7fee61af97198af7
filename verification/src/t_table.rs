//! The Student-t critical-value table: one row per degrees-of-freedom bucket
//! from 1 to 1000, a final asymptotic row used for anything larger, and one
//! column per supported confidence level. Entries are critical t-values times
//! `CRIT_SCALE`, held as integers so that the table is exact data.

use vstd::prelude::*;

use crate::err::MinistatFailure;

verus! {

/// Every table entry is the critical t-value multiplied by this scale.
pub const CRIT_SCALE: u64 = 100000;

/// The labels of the supported confidence levels, in table-column order.
pub open spec fn confidence_labels() -> Seq<Seq<char>> {
    seq!["80"@, "90"@, "95"@, "98"@, "99"@, "99.5"@]
}

/// The supported confidence-level labels, in table-column order.
pub fn t_confidences() -> (r: Vec<&'static str>)
    ensures
        r@.len() == confidence_labels().len(),
        forall|i: int| 0 <= i < r@.len() ==> (#[trigger] r@[i])@ == confidence_labels()[i],
{
    let v: Vec<&'static str> = vec!["80", "90", "95", "98", "99", "99.5"];
    assert(forall|i: int| 0 <= i < v@.len() ==> (#[trigger] v@[i])@ == confidence_labels()[i]);
    v
}

/// The two-sided critical values of the Student-t distribution.
pub struct CriticalValueTable {
    rows: Vec<Vec<u64>>,
}

/// All rows of a table slice are six columns wide.
spec fn rows_wf(rows: Seq<Vec<u64>>) -> bool {
    forall|i: int| 0 <= i < rows.len() ==> (#[trigger] rows[i])@.len() == 6
}

/// Table rows for degrees-of-freedom buckets 1 to 77.
fn rows_00() -> (r: Vec<Vec<u64>>)
    ensures
        r@.len() == 77,
        rows_wf(r@),
        r@[0]@ =~= seq![307768u64, 631375, 1270620, 3182052, 6365674, 12732134],
        r@[3]@[2] == 277645,
{
    let r: Vec<Vec<u64>> = vec![
        vec![307768, 631375, 1270620, 3182052, 6365674, 12732134],
        vec![188562, 291999, 430265, 696456, 992484, 1408905],
        vec![163774, 235336, 318245, 454070, 584091, 745332],
        vec![153321, 213185, 277645, 374695, 460409, 559757],
        vec![147588, 201505, 257058, 336493, 403214, 477334],
        vec![143976, 194318, 244691, 314267, 370743, 431683],
        vec![141492, 189458, 236462, 299795, 349948, 402934],
        vec![139682, 185955, 230600, 289646, 335539, 383252],
        vec![138303, 183311, 226216, 282144, 324984, 368966],
        vec![137218, 181246, 222814, 276377, 316927, 358141],
        vec![136343, 179588, 220099, 271808, 310581, 349661],
        vec![135622, 178229, 217881, 268100, 305454, 342844],
        vec![135017, 177093, 216037, 265031, 301228, 337247],
        vec![134503, 176131, 214479, 262449, 297684, 332570],
        vec![134061, 175305, 213145, 260248, 294671, 328604],
        vec![133676, 174588, 211991, 258349, 292078, 325199],
        vec![133338, 173961, 210982, 256693, 289823, 322245],
        vec![133039, 173406, 210092, 255238, 287844, 319657],
        vec![132773, 172913, 209302, 253948, 286093, 317372],
        vec![132534, 172472, 208596, 252798, 284534, 315340],
        vec![132319, 172074, 207961, 251765, 283136, 313521],
        vec![132124, 171714, 207387, 250832, 281876, 311882],
        vec![131946, 171387, 206866, 249987, 280734, 310400],
        vec![131784, 171088, 206390, 249216, 279694, 309051],
        vec![131635, 170814, 205954, 248511, 278744, 307820],
        vec![131497, 170562, 205553, 247863, 277871, 306691],
        vec![131370, 170329, 205183, 247266, 277068, 305652],
        vec![131253, 170113, 204841, 246714, 276326, 304693],
        vec![131143, 169913, 204523, 246202, 275639, 303805],
        vec![131042, 169726, 204227, 245726, 275000, 302980],
        vec![130946, 169552, 203951, 245282, 274404, 302212],
        vec![130857, 169389, 203693, 244868, 273848, 301495],
        vec![130774, 169236, 203452, 244479, 273328, 300824],
        vec![130695, 169092, 203224, 244115, 272839, 300195],
        vec![130621, 168957, 203011, 243772, 272381, 299605],
        vec![130551, 168830, 202809, 243449, 271948, 299049],
        vec![130485, 168709, 202619, 243145, 271541, 298524],
        vec![130423, 168595, 202439, 242857, 271156, 298029],
        vec![130364, 168488, 202269, 242584, 270791, 297561],
        vec![130308, 168385, 202108, 242326, 270446, 297117],
        vec![130254, 168288, 201954, 242080, 270118, 296696],
        vec![130204, 168195, 201808, 241847, 269807, 296296],
        vec![130155, 168107, 201669, 241625, 269510, 295916],
        vec![130109, 168023, 201537, 241413, 269228, 295553],
        vec![130065, 167943, 201410, 241212, 268959, 295208],
        vec![130023, 167866, 201290, 241019, 268701, 294878],
        vec![129982, 167793, 201174, 240835, 268456, 294563],
        vec![129944, 167722, 201063, 240658, 268220, 294262],
        vec![129907, 167655, 200958, 240489, 267995, 293973],
        vec![129871, 167591, 200856, 240327, 267779, 293696],
        vec![129837, 167528, 200758, 240172, 267572, 293431],
        vec![129805, 167469, 200665, 240022, 267373, 293176],
        vec![129773, 167412, 200575, 239879, 267182, 292932],
        vec![129743, 167356, 200488, 239741, 266998, 292696],
        vec![129713, 167303, 200404, 239608, 266822, 292470],
        vec![129685, 167252, 200324, 239480, 266651, 292252],
        vec![129658, 167203, 200247, 239357, 266487, 292042],
        vec![129632, 167155, 200172, 239238, 266329, 291839],
        vec![129607, 167109, 200100, 239123, 266176, 291644],
        vec![129582, 167065, 200030, 239012, 266028, 291455],
        vec![129558, 167022, 199962, 238905, 265886, 291273],
        vec![129536, 166980, 199897, 238801, 265748, 291097],
        vec![129513, 166940, 199834, 238701, 265615, 290926],
        vec![129492, 166901, 199773, 238604, 265485, 290761],
        vec![129471, 166864, 199714, 238510, 265360, 290602],
        vec![129451, 166827, 199656, 238419, 265239, 290447],
        vec![129432, 166792, 199601, 238330, 265122, 290297],
        vec![129413, 166757, 199547, 238245, 265008, 290151],
        vec![129394, 166724, 199495, 238161, 264898, 290010],
        vec![129376, 166691, 199444, 238081, 264790, 289873],
        vec![129359, 166660, 199394, 238002, 264686, 289740],
        vec![129342, 166629, 199346, 237926, 264585, 289611],
        vec![129326, 166600, 199300, 237852, 264487, 289486],
        vec![129310, 166571, 199254, 237780, 264391, 289364],
        vec![129294, 166543, 199210, 237710, 264298, 289245],
        vec![129279, 166515, 199167, 237642, 264208, 289130],
        vec![129264, 166488, 199125, 237576, 264120, 289017],
    ];
    assert(rows_wf(r@));
    r
}

/// Table rows for degrees-of-freedom buckets 78 to 154.
fn rows_01() -> (r: Vec<Vec<u64>>)
    ensures
        r@.len() == 77,
        rows_wf(r@),
{
    let r: Vec<Vec<u64>> = vec![
        vec![129250, 166462, 199085, 237511, 264034, 288908],
        vec![129236, 166437, 199045, 237448, 263950, 288801],
        vec![129222, 166412, 199006, 237387, 263869, 288697],
        vec![129209, 166388, 198969, 237327, 263790, 288596],
        vec![129196, 166365, 198932, 237269, 263712, 288497],
        vec![129183, 166342, 198896, 237212, 263637, 288401],
        vec![129171, 166320, 198861, 237156, 263563, 288307],
        vec![129159, 166298, 198827, 237102, 263491, 288215],
        vec![129147, 166277, 198793, 237049, 263421, 288126],
        vec![129136, 166256, 198761, 236998, 263353, 288039],
        vec![129125, 166235, 198729, 236947, 263286, 287953],
        vec![129114, 166216, 198698, 236898, 263220, 287870],
        vec![129103, 166196, 198667, 236850, 263157, 287788],
        vec![129092, 166177, 198638, 236803, 263094, 287709],
        vec![129082, 166159, 198609, 236757, 263033, 287631],
        vec![129072, 166140, 198580, 236712, 262973, 287555],
        vec![129062, 166123, 198552, 236667, 262915, 287480],
        vec![129053, 166105, 198525, 236624, 262858, 287407],
        vec![129043, 166088, 198498, 236582, 262802, 287336],
        vec![129034, 166071, 198472, 236541, 262747, 287266],
        vec![129025, 166055, 198447, 236500, 262693, 287198],
        vec![129016, 166039, 198422, 236461, 262641, 287131],
        vec![129007, 166023, 198397, 236422, 262589, 287065],
        vec![128999, 166008, 198373, 236384, 262539, 287001],
        vec![128991, 165993, 198350, 236346, 262489, 286938],
        vec![128982, 165978, 198326, 236310, 262441, 286876],
        vec![128974, 165964, 198304, 236274, 262393, 286816],
        vec![128967, 165950, 198282, 236239, 262347, 286756],
        vec![128959, 165936, 198260, 236204, 262301, 286698],
        vec![128951, 165922, 198238, 236170, 262256, 286641],
        vec![128944, 165909, 198217, 236137, 262212, 286585],
        vec![128937, 165895, 198197, 236105, 262169, 286530],
        vec![128930, 165882, 198177, 236073, 262126, 286476],
        vec![128922, 165870, 198157, 236041, 262085, 286423],
        vec![128916, 165857, 198137, 236010, 262044, 286371],
        vec![128909, 165845, 198118, 235980, 262004, 286320],
        vec![128902, 165833, 198099, 235950, 261964, 286270],
        vec![128896, 165821, 198081, 235921, 261926, 286220],
        vec![128889, 165810, 198063, 235892, 261888, 286172],
        vec![128883, 165798, 198045, 235864, 261850, 286124],
        vec![128877, 165787, 198027, 235837, 261814, 286078],
        vec![128871, 165776, 198010, 235809, 261778, 286032],
        vec![128865, 165765, 197993, 235782, 261742, 285986],
        vec![128859, 165754, 197976, 235756, 261707, 285942],
        vec![128853, 165744, 197960, 235730, 261673, 285898],
        vec![128847, 165734, 197944, 235705, 261639, 285855],
        vec![128842, 165723, 197928, 235680, 261606, 285813],
        vec![128836, 165714, 197912, 235655, 261573, 285772],
        vec![128831, 165704, 197897, 235631, 261541, 285731],
        vec![128825, 165694, 197882, 235607, 261510, 285691],
        vec![128820, 165685, 197867, 235583, 261478, 285651],
        vec![128815, 165675, 197852, 235560, 261448, 285612],
        vec![128810, 165666, 197838, 235537, 261418, 285574],
        vec![128805, 165657, 197824, 235515, 261388, 285536],
        vec![128800, 165648, 197810, 235493, 261359, 285499],
        vec![128795, 165639, 197796, 235471, 261330, 285462],
        vec![128790, 165630, 197783, 235450, 261302, 285426],
        vec![128785, 165622, 197769, 235429, 261274, 285390],
        vec![128781, 165613, 197756, 235408, 261246, 285355],
        vec![128776, 165605, 197743, 235387, 261219, 285321],
        vec![128772, 165597, 197730, 235367, 261193, 285287],
        vec![128767, 165589, 197718, 235347, 261166, 285254],
        vec![128763, 165581, 197705, 235328, 261140, 285221],
        vec![128758, 165573, 197693, 235309, 261115, 285188],
        vec![128754, 165566, 197681, 235289, 261090, 285156],
        vec![128750, 165558, 197669, 235271, 261065, 285124],
        vec![128746, 165550, 197658, 235252, 261040, 285093],
        vec![128742, 165543, 197646, 235234, 261016, 285063],
        vec![128738, 165536, 197635, 235216, 260992, 285032],
        vec![128734, 165529, 197623, 235198, 260969, 285002],
        vec![128730, 165521, 197612, 235181, 260946, 284973],
        vec![128726, 165514, 197601, 235163, 260923, 284944],
        vec![128722, 165508, 197591, 235146, 260900, 284915],
        vec![128718, 165501, 197580, 235130, 260878, 284887],
        vec![128715, 165494, 197569, 235113, 260856, 284859],
        vec![128711, 165487, 197559, 235097, 260834, 284832],
        vec![128707, 165481, 197549, 235081, 260813, 284804],
    ];
    assert(rows_wf(r@));
    r
}

/// Table rows for degrees-of-freedom buckets 155 to 231.
fn rows_02() -> (r: Vec<Vec<u64>>)
    ensures
        r@.len() == 77,
        rows_wf(r@),
{
    let r: Vec<Vec<u64>> = vec![
        vec![128704, 165474, 197539, 235065, 260792, 284778],
        vec![128700, 165468, 197529, 235049, 260771, 284751],
        vec![128697, 165462, 197519, 235033, 260751, 284725],
        vec![128693, 165455, 197509, 235018, 260730, 284699],
        vec![128690, 165449, 197500, 235003, 260710, 284674],
        vec![128687, 165443, 197490, 234988, 260691, 284649],
        vec![128683, 165437, 197481, 234973, 260671, 284624],
        vec![128680, 165431, 197472, 234959, 260652, 284599],
        vec![128677, 165426, 197462, 234944, 260633, 284575],
        vec![128673, 165420, 197453, 234930, 260614, 284551],
        vec![128670, 165414, 197445, 234916, 260595, 284528],
        vec![128667, 165408, 197436, 234902, 260577, 284504],
        vec![128664, 165403, 197427, 234888, 260559, 284481],
        vec![128661, 165397, 197419, 234875, 260541, 284458],
        vec![128658, 165392, 197410, 234862, 260523, 284436],
        vec![128655, 165387, 197402, 234848, 260506, 284414],
        vec![128652, 165381, 197393, 234835, 260489, 284392],
        vec![128649, 165376, 197385, 234822, 260471, 284370],
        vec![128646, 165371, 197377, 234810, 260455, 284349],
        vec![128644, 165366, 197369, 234797, 260438, 284327],
        vec![128641, 165361, 197361, 234784, 260421, 284306],
        vec![128638, 165356, 197353, 234772, 260405, 284286],
        vec![128635, 165351, 197346, 234760, 260389, 284265],
        vec![128633, 165346, 197338, 234748, 260373, 284245],
        vec![128630, 165341, 197331, 234736, 260357, 284225],
        vec![128627, 165336, 197323, 234724, 260342, 284205],
        vec![128625, 165332, 197316, 234713, 260326, 284186],
        vec![128622, 165327, 197308, 234701, 260311, 284166],
        vec![128619, 165322, 197301, 234690, 260296, 284147],
        vec![128617, 165318, 197294, 234678, 260281, 284128],
        vec![128614, 165313, 197287, 234667, 260267, 284109],
        vec![128612, 165309, 197280, 234656, 260252, 284091],
        vec![128610, 165304, 197273, 234645, 260238, 284073],
        vec![128607, 165300, 197266, 234635, 260223, 284055],
        vec![128605, 165296, 197260, 234624, 260209, 284037],
        vec![128602, 165291, 197253, 234613, 260195, 284019],
        vec![128600, 165287, 197246, 234603, 260181, 284001],
        vec![128598, 165283, 197240, 234593, 260168, 283984],
        vec![128595, 165279, 197233, 234582, 260154, 283967],
        vec![128593, 165275, 197227, 234572, 260141, 283950],
        vec![128591, 165271, 197220, 234562, 260128, 283933],
        vec![128589, 165267, 197214, 234552, 260115, 283916],
        vec![128586, 165263, 197208, 234543, 260102, 283900],
        vec![128584, 165259, 197202, 234533, 260089, 283883],
        vec![128582, 165255, 197196, 234523, 260076, 283867],
        vec![128580, 165251, 197190, 234514, 260063, 283851],
        vec![128578, 165247, 197184, 234504, 260051, 283836],
        vec![128576, 165243, 197178, 234495, 260039, 283820],
        vec![128574, 165239, 197172, 234486, 260026, 283804],
        vec![128572, 165236, 197166, 234477, 260014, 283789],
        vec![128569, 165232, 197160, 234468, 260002, 283774],
        vec![128567, 165228, 197155, 234459, 259991, 283759],
        vec![128565, 165225, 197149, 234450, 259979, 283744],
        vec![128563, 165221, 197143, 234441, 259967, 283729],
        vec![128562, 165218, 197138, 234432, 259956, 283714],
        vec![128560, 165214, 197132, 234424, 259944, 283700],
        vec![128558, 165211, 197127, 234415, 259933, 283686],
        vec![128556, 165207, 197122, 234407, 259922, 283671],
        vec![128554, 165204, 197116, 234398, 259911, 283657],
        vec![128552, 165201, 197111, 234390, 259900, 283643],
        vec![128550, 165197, 197106, 234382, 259889, 283630],
        vec![128548, 165194, 197101, 234374, 259878, 283616],
        vec![128547, 165191, 197096, 234365, 259868, 283602],
        vec![128545, 165187, 197091, 234357, 259857, 283589],
        vec![128543, 165184, 197086, 234350, 259846, 283576],
        vec![128541, 165181, 197081, 234342, 259836, 283562],
        vec![128539, 165178, 197076, 234334, 259826, 283549],
        vec![128538, 165175, 197071, 234326, 259816, 283536],
        vec![128536, 165172, 197066, 234319, 259806, 283524],
        vec![128534, 165168, 197061, 234311, 259796, 283511],
        vec![128533, 165165, 197056, 234304, 259786, 283498],
        vec![128531, 165162, 197052, 234296, 259776, 283486],
        vec![128529, 165159, 197047, 234289, 259766, 283474],
        vec![128528, 165156, 197042, 234281, 259756, 283461],
        vec![128526, 165153, 197038, 234274, 259747, 283449],
        vec![128524, 165151, 197033, 234267, 259737, 283437],
        vec![128523, 165148, 197029, 234260, 259728, 283425],
    ];
    assert(rows_wf(r@));
    r
}

/// Table rows for degrees-of-freedom buckets 232 to 308.
fn rows_03() -> (r: Vec<Vec<u64>>)
    ensures
        r@.len() == 77,
        rows_wf(r@),
{
    let r: Vec<Vec<u64>> = vec![
        vec![128521, 165145, 197024, 234253, 259719, 283413],
        vec![128520, 165142, 197020, 234246, 259709, 283402],
        vec![128518, 165139, 197015, 234239, 259700, 283390],
        vec![128516, 165136, 197011, 234232, 259691, 283378],
        vec![128515, 165134, 197007, 234225, 259682, 283367],
        vec![128513, 165131, 197002, 234218, 259673, 283356],
        vec![128512, 165128, 196998, 234212, 259664, 283344],
        vec![128510, 165125, 196994, 234205, 259656, 283333],
        vec![128509, 165123, 196990, 234199, 259647, 283322],
        vec![128507, 165120, 196986, 234192, 259638, 283311],
        vec![128506, 165117, 196982, 234186, 259630, 283300],
        vec![128505, 165115, 196977, 234179, 259621, 283290],
        vec![128503, 165112, 196973, 234173, 259613, 283279],
        vec![128502, 165110, 196969, 234166, 259604, 283268],
        vec![128500, 165107, 196965, 234160, 259596, 283258],
        vec![128499, 165105, 196961, 234154, 259588, 283247],
        vec![128497, 165102, 196958, 234148, 259580, 283237],
        vec![128496, 165100, 196954, 234142, 259572, 283227],
        vec![128495, 165097, 196950, 234136, 259564, 283217],
        vec![128493, 165095, 196946, 234130, 259556, 283206],
        vec![128492, 165092, 196942, 234124, 259548, 283196],
        vec![128491, 165090, 196938, 234118, 259540, 283187],
        vec![128489, 165087, 196935, 234112, 259532, 283177],
        vec![128488, 165085, 196931, 234106, 259525, 283167],
        vec![128487, 165083, 196927, 234100, 259517, 283157],
        vec![128485, 165080, 196924, 234094, 259509, 283148],
        vec![128484, 165078, 196920, 234089, 259502, 283138],
        vec![128483, 165076, 196917, 234083, 259494, 283129],
        vec![128482, 165074, 196913, 234078, 259487, 283119],
        vec![128480, 165071, 196909, 234072, 259480, 283110],
        vec![128479, 165069, 196906, 234066, 259472, 283101],
        vec![128478, 165067, 196902, 234061, 259465, 283091],
        vec![128477, 165065, 196899, 234056, 259458, 283082],
        vec![128475, 165062, 196896, 234050, 259451, 283073],
        vec![128474, 165060, 196892, 234045, 259444, 283064],
        vec![128473, 165058, 196889, 234040, 259437, 283055],
        vec![128472, 165056, 196886, 234034, 259430, 283046],
        vec![128471, 165054, 196882, 234029, 259423, 283038],
        vec![128469, 165052, 196879, 234024, 259416, 283029],
        vec![128468, 165050, 196876, 234019, 259409, 283020],
        vec![128467, 165047, 196872, 234014, 259402, 283012],
        vec![128466, 165045, 196869, 234008, 259396, 283003],
        vec![128465, 165043, 196866, 234003, 259389, 282995],
        vec![128464, 165041, 196863, 233998, 259383, 282986],
        vec![128463, 165039, 196860, 233993, 259376, 282978],
        vec![128462, 165037, 196857, 233989, 259369, 282970],
        vec![128460, 165035, 196853, 233984, 259363, 282962],
        vec![128459, 165033, 196850, 233979, 259357, 282953],
        vec![128458, 165031, 196847, 233974, 259350, 282945],
        vec![128457, 165029, 196844, 233969, 259344, 282937],
        vec![128456, 165027, 196841, 233964, 259338, 282929],
        vec![128455, 165026, 196838, 233960, 259331, 282921],
        vec![128454, 165024, 196835, 233955, 259325, 282913],
        vec![128453, 165022, 196832, 233950, 259319, 282906],
        vec![128452, 165020, 196829, 233946, 259313, 282898],
        vec![128451, 165018, 196826, 233941, 259307, 282890],
        vec![128450, 165016, 196824, 233937, 259301, 282883],
        vec![128449, 165014, 196821, 233932, 259295, 282875],
        vec![128448, 165012, 196818, 233928, 259289, 282867],
        vec![128447, 165011, 196815, 233923, 259283, 282860],
        vec![128446, 165009, 196812, 233919, 259277, 282853],
        vec![128445, 165007, 196809, 233914, 259271, 282845],
        vec![128444, 165005, 196807, 233910, 259265, 282838],
        vec![128443, 165004, 196804, 233905, 259260, 282831],
        vec![128442, 165002, 196801, 233901, 259254, 282823],
        vec![128441, 165000, 196798, 233897, 259248, 282816],
        vec![128440, 164998, 196796, 233893, 259243, 282809],
        vec![128439, 164997, 196793, 233888, 259237, 282802],
        vec![128438, 164995, 196790, 233884, 259232, 282795],
        vec![128437, 164993, 196788, 233880, 259226, 282788],
        vec![128436, 164991, 196785, 233876, 259221, 282781],
        vec![128435, 164990, 196782, 233872, 259215, 282774],
        vec![128434, 164988, 196780, 233868, 259210, 282767],
        vec![128433, 164986, 196777, 233864, 259204, 282760],
        vec![128432, 164985, 196775, 233860, 259199, 282754],
        vec![128432, 164983, 196772, 233856, 259194, 282747],
        vec![128431, 164982, 196770, 233852, 259189, 282740],
    ];
    assert(rows_wf(r@));
    r
}

/// Table rows for degrees-of-freedom buckets 309 to 385.
fn rows_04() -> (r: Vec<Vec<u64>>)
    ensures
        r@.len() == 77,
        rows_wf(r@),
{
    let r: Vec<Vec<u64>> = vec![
        vec![128430, 164980, 196767, 233848, 259183, 282733],
        vec![128429, 164978, 196765, 233844, 259178, 282727],
        vec![128428, 164977, 196762, 233840, 259173, 282720],
        vec![128427, 164975, 196760, 233836, 259168, 282714],
        vec![128426, 164974, 196757, 233832, 259163, 282707],
        vec![128425, 164972, 196755, 233828, 259158, 282701],
        vec![128424, 164971, 196752, 233824, 259153, 282695],
        vec![128424, 164969, 196750, 233821, 259148, 282688],
        vec![128423, 164967, 196748, 233817, 259143, 282682],
        vec![128422, 164966, 196745, 233813, 259138, 282676],
        vec![128421, 164964, 196743, 233809, 259133, 282669],
        vec![128420, 164963, 196740, 233806, 259128, 282663],
        vec![128419, 164961, 196738, 233802, 259123, 282657],
        vec![128419, 164960, 196736, 233798, 259118, 282651],
        vec![128418, 164958, 196734, 233795, 259114, 282645],
        vec![128417, 164957, 196731, 233791, 259109, 282639],
        vec![128416, 164956, 196729, 233788, 259104, 282633],
        vec![128415, 164954, 196727, 233784, 259099, 282627],
        vec![128415, 164953, 196725, 233781, 259095, 282621],
        vec![128414, 164951, 196722, 233777, 259090, 282615],
        vec![128413, 164950, 196720, 233774, 259086, 282609],
        vec![128412, 164948, 196718, 233770, 259081, 282603],
        vec![128411, 164947, 196716, 233767, 259076, 282598],
        vec![128411, 164946, 196714, 233763, 259072, 282592],
        vec![128410, 164944, 196711, 233760, 259067, 282586],
        vec![128409, 164943, 196709, 233756, 259063, 282581],
        vec![128408, 164941, 196707, 233753, 259058, 282575],
        vec![128408, 164940, 196705, 233750, 259054, 282569],
        vec![128407, 164939, 196703, 233746, 259050, 282564],
        vec![128406, 164937, 196701, 233743, 259045, 282558],
        vec![128405, 164936, 196699, 233740, 259041, 282553],
        vec![128405, 164935, 196697, 233737, 259037, 282547],
        vec![128404, 164933, 196695, 233733, 259032, 282542],
        vec![128403, 164932, 196692, 233730, 259028, 282536],
        vec![128402, 164931, 196690, 233727, 259024, 282531],
        vec![128402, 164930, 196688, 233724, 259020, 282526],
        vec![128401, 164928, 196686, 233721, 259015, 282520],
        vec![128400, 164927, 196684, 233717, 259011, 282515],
        vec![128400, 164926, 196682, 233714, 259007, 282510],
        vec![128399, 164924, 196680, 233711, 259003, 282505],
        vec![128398, 164923, 196678, 233708, 258999, 282499],
        vec![128398, 164922, 196677, 233705, 258995, 282494],
        vec![128397, 164921, 196675, 233702, 258991, 282489],
        vec![128396, 164919, 196673, 233699, 258987, 282484],
        vec![128395, 164918, 196671, 233696, 258983, 282479],
        vec![128395, 164917, 196669, 233693, 258979, 282474],
        vec![128394, 164916, 196667, 233690, 258975, 282469],
        vec![128393, 164915, 196665, 233687, 258971, 282464],
        vec![128393, 164913, 196663, 233684, 258967, 282459],
        vec![128392, 164912, 196661, 233681, 258963, 282454],
        vec![128391, 164911, 196659, 233678, 258959, 282449],
        vec![128391, 164910, 196658, 233675, 258955, 282444],
        vec![128390, 164909, 196656, 233672, 258952, 282439],
        vec![128389, 164907, 196654, 233669, 258948, 282435],
        vec![128389, 164906, 196652, 233666, 258944, 282430],
        vec![128388, 164905, 196650, 233664, 258940, 282425],
        vec![128388, 164904, 196648, 233661, 258937, 282420],
        vec![128387, 164903, 196647, 233658, 258933, 282416],
        vec![128386, 164902, 196645, 233655, 258929, 282411],
        vec![128386, 164900, 196643, 233652, 258925, 282406],
        vec![128385, 164899, 196641, 233650, 258922, 282402],
        vec![128384, 164898, 196640, 233647, 258918, 282397],
        vec![128384, 164897, 196638, 233644, 258915, 282392],
        vec![128383, 164896, 196636, 233641, 258911, 282388],
        vec![128383, 164895, 196634, 233639, 258907, 282383],
        vec![128382, 164894, 196633, 233636, 258904, 282379],
        vec![128381, 164893, 196631, 233633, 258900, 282374],
        vec![128381, 164892, 196629, 233631, 258897, 282370],
        vec![128380, 164891, 196628, 233628, 258893, 282365],
        vec![128380, 164889, 196626, 233625, 258890, 282361],
        vec![128379, 164888, 196624, 233623, 258886, 282356],
        vec![128378, 164887, 196623, 233620, 258883, 282352],
        vec![128378, 164886, 196621, 233617, 258879, 282348],
        vec![128377, 164885, 196619, 233615, 258876, 282343],
        vec![128377, 164884, 196618, 233612, 258873, 282339],
        vec![128376, 164883, 196616, 233610, 258869, 282335],
        vec![128375, 164882, 196614, 233607, 258866, 282331],
    ];
    assert(rows_wf(r@));
    r
}

/// Table rows for degrees-of-freedom buckets 386 to 462.
fn rows_05() -> (r: Vec<Vec<u64>>)
    ensures
        r@.len() == 77,
        rows_wf(r@),
{
    let r: Vec<Vec<u64>> = vec![
        vec![128375, 164881, 196613, 233605, 258863, 282326],
        vec![128374, 164880, 196611, 233602, 258859, 282322],
        vec![128374, 164879, 196610, 233600, 258856, 282318],
        vec![128373, 164878, 196608, 233597, 258853, 282314],
        vec![128373, 164877, 196607, 233595, 258849, 282310],
        vec![128372, 164876, 196605, 233592, 258846, 282305],
        vec![128371, 164875, 196603, 233590, 258843, 282301],
        vec![128371, 164874, 196602, 233587, 258840, 282297],
        vec![128370, 164873, 196600, 233585, 258836, 282293],
        vec![128370, 164872, 196599, 233583, 258833, 282289],
        vec![128369, 164871, 196597, 233580, 258830, 282285],
        vec![128369, 164870, 196596, 233578, 258827, 282281],
        vec![128368, 164869, 196594, 233575, 258824, 282277],
        vec![128368, 164868, 196593, 233573, 258821, 282273],
        vec![128367, 164867, 196591, 233571, 258818, 282269],
        vec![128367, 164866, 196590, 233568, 258815, 282265],
        vec![128366, 164865, 196588, 233566, 258811, 282261],
        vec![128366, 164864, 196587, 233564, 258808, 282258],
        vec![128365, 164863, 196585, 233561, 258805, 282254],
        vec![128365, 164862, 196584, 233559, 258802, 282250],
        vec![128364, 164862, 196582, 233557, 258799, 282246],
        vec![128364, 164861, 196581, 233554, 258796, 282242],
        vec![128363, 164860, 196580, 233552, 258793, 282238],
        vec![128362, 164859, 196578, 233550, 258790, 282235],
        vec![128362, 164858, 196577, 233548, 258787, 282231],
        vec![128361, 164857, 196575, 233546, 258784, 282227],
        vec![128361, 164856, 196574, 233543, 258781, 282223],
        vec![128360, 164855, 196572, 233541, 258779, 282220],
        vec![128360, 164854, 196571, 233539, 258776, 282216],
        vec![128359, 164853, 196570, 233537, 258773, 282212],
        vec![128359, 164852, 196568, 233535, 258770, 282209],
        vec![128359, 164852, 196567, 233532, 258767, 282205],
        vec![128358, 164851, 196566, 233530, 258764, 282201],
        vec![128358, 164850, 196564, 233528, 258761, 282198],
        vec![128357, 164849, 196563, 233526, 258759, 282194],
        vec![128357, 164848, 196561, 233524, 258756, 282191],
        vec![128356, 164847, 196560, 233522, 258753, 282187],
        vec![128356, 164846, 196559, 233520, 258750, 282184],
        vec![128355, 164846, 196557, 233517, 258747, 282180],
        vec![128355, 164845, 196556, 233515, 258745, 282177],
        vec![128354, 164844, 196555, 233513, 258742, 282173],
        vec![128354, 164843, 196554, 233511, 258739, 282170],
        vec![128353, 164842, 196552, 233509, 258736, 282166],
        vec![128353, 164841, 196551, 233507, 258734, 282163],
        vec![128352, 164840, 196550, 233505, 258731, 282159],
        vec![128352, 164840, 196548, 233503, 258728, 282156],
        vec![128351, 164839, 196547, 233501, 258726, 282153],
        vec![128351, 164838, 196546, 233499, 258723, 282149],
        vec![128351, 164837, 196545, 233497, 258720, 282146],
        vec![128350, 164836, 196543, 233495, 258718, 282143],
        vec![128350, 164836, 196542, 233493, 258715, 282139],
        vec![128349, 164835, 196541, 233491, 258713, 282136],
        vec![128349, 164834, 196539, 233489, 258710, 282133],
        vec![128348, 164833, 196538, 233487, 258707, 282129],
        vec![128348, 164832, 196537, 233485, 258705, 282126],
        vec![128347, 164832, 196536, 233483, 258702, 282123],
        vec![128347, 164831, 196535, 233481, 258700, 282120],
        vec![128347, 164830, 196533, 233479, 258697, 282117],
        vec![128346, 164829, 196532, 233478, 258695, 282113],
        vec![128346, 164829, 196531, 233476, 258692, 282110],
        vec![128345, 164828, 196530, 233474, 258690, 282107],
        vec![128345, 164827, 196529, 233472, 258687, 282104],
        vec![128344, 164826, 196527, 233470, 258685, 282101],
        vec![128344, 164825, 196526, 233468, 258682, 282098],
        vec![128344, 164825, 196525, 233466, 258680, 282094],
        vec![128343, 164824, 196524, 233464, 258677, 282091],
        vec![128343, 164823, 196523, 233463, 258675, 282088],
        vec![128342, 164822, 196521, 233461, 258673, 282085],
        vec![128342, 164822, 196520, 233459, 258670, 282082],
        vec![128341, 164821, 196519, 233457, 258668, 282079],
        vec![128341, 164820, 196518, 233455, 258665, 282076],
        vec![128341, 164819, 196517, 233454, 258663, 282073],
        vec![128340, 164819, 196516, 233452, 258661, 282070],
        vec![128340, 164818, 196515, 233450, 258658, 282067],
        vec![128339, 164817, 196513, 233448, 258656, 282064],
        vec![128339, 164817, 196512, 233446, 258654, 282061],
        vec![128339, 164816, 196511, 233445, 258651, 282058],
    ];
    assert(rows_wf(r@));
    r
}

/// Table rows for degrees-of-freedom buckets 463 to 539.
fn rows_06() -> (r: Vec<Vec<u64>>)
    ensures
        r@.len() == 77,
        rows_wf(r@),
{
    let r: Vec<Vec<u64>> = vec![
        vec![128338, 164815, 196510, 233443, 258649, 282055],
        vec![128338, 164814, 196509, 233441, 258647, 282052],
        vec![128337, 164814, 196508, 233439, 258644, 282049],
        vec![128337, 164813, 196507, 233438, 258642, 282046],
        vec![128337, 164812, 196506, 233436, 258640, 282044],
        vec![128336, 164812, 196505, 233434, 258638, 282041],
        vec![128336, 164811, 196503, 233433, 258635, 282038],
        vec![128336, 164810, 196502, 233431, 258633, 282035],
        vec![128335, 164810, 196501, 233429, 258631, 282032],
        vec![128335, 164809, 196500, 233427, 258629, 282029],
        vec![128334, 164808, 196499, 233426, 258626, 282027],
        vec![128334, 164807, 196498, 233424, 258624, 282024],
        vec![128334, 164807, 196497, 233422, 258622, 282021],
        vec![128333, 164806, 196496, 233421, 258620, 282018],
        vec![128333, 164805, 196495, 233419, 258618, 282015],
        vec![128333, 164805, 196494, 233417, 258615, 282013],
        vec![128332, 164804, 196493, 233416, 258613, 282010],
        vec![128332, 164803, 196492, 233414, 258611, 282007],
        vec![128331, 164803, 196491, 233413, 258609, 282004],
        vec![128331, 164802, 196490, 233411, 258607, 282002],
        vec![128331, 164801, 196489, 233409, 258605, 281999],
        vec![128330, 164801, 196488, 233408, 258603, 281996],
        vec![128330, 164800, 196487, 233406, 258600, 281994],
        vec![128330, 164799, 196486, 233405, 258598, 281991],
        vec![128329, 164799, 196485, 233403, 258596, 281988],
        vec![128329, 164798, 196484, 233401, 258594, 281986],
        vec![128329, 164798, 196483, 233400, 258592, 281983],
        vec![128328, 164797, 196482, 233398, 258590, 281980],
        vec![128328, 164796, 196481, 233397, 258588, 281978],
        vec![128327, 164796, 196480, 233395, 258586, 281975],
        vec![128327, 164795, 196479, 233394, 258584, 281973],
        vec![128327, 164794, 196478, 233392, 258582, 281970],
        vec![128326, 164794, 196477, 233390, 258580, 281967],
        vec![128326, 164793, 196476, 233389, 258578, 281965],
        vec![128326, 164793, 196475, 233387, 258576, 281962],
        vec![128325, 164792, 196474, 233386, 258574, 281960],
        vec![128325, 164791, 196473, 233384, 258572, 281957],
        vec![128325, 164791, 196472, 233383, 258570, 281955],
        vec![128324, 164790, 196471, 233381, 258568, 281952],
        vec![128324, 164789, 196470, 233380, 258566, 281950],
        vec![128324, 164789, 196469, 233378, 258564, 281947],
        vec![128323, 164788, 196468, 233377, 258562, 281945],
        vec![128323, 164788, 196467, 233375, 258560, 281942],
        vec![128323, 164787, 196466, 233374, 258558, 281940],
        vec![128322, 164786, 196465, 233373, 258556, 281937],
        vec![128322, 164786, 196464, 233371, 258554, 281935],
        vec![128322, 164785, 196464, 233370, 258552, 281933],
        vec![128321, 164785, 196463, 233368, 258550, 281930],
        vec![128321, 164784, 196462, 233367, 258548, 281928],
        vec![128321, 164784, 196461, 233365, 258547, 281925],
        vec![128320, 164783, 196460, 233364, 258545, 281923],
        vec![128320, 164782, 196459, 233362, 258543, 281921],
        vec![128320, 164782, 196458, 233361, 258541, 281918],
        vec![128319, 164781, 196457, 233360, 258539, 281916],
        vec![128319, 164781, 196456, 233358, 258537, 281913],
        vec![128319, 164780, 196455, 233357, 258535, 281911],
        vec![128318, 164779, 196455, 233355, 258534, 281909],
        vec![128318, 164779, 196454, 233354, 258532, 281906],
        vec![128318, 164778, 196453, 233353, 258530, 281904],
        vec![128318, 164778, 196452, 233351, 258528, 281902],
        vec![128317, 164777, 196451, 233350, 258526, 281900],
        vec![128317, 164777, 196450, 233349, 258524, 281897],
        vec![128317, 164776, 196449, 233347, 258523, 281895],
        vec![128316, 164776, 196448, 233346, 258521, 281893],
        vec![128316, 164775, 196448, 233344, 258519, 281890],
        vec![128316, 164774, 196447, 233343, 258517, 281888],
        vec![128315, 164774, 196446, 233342, 258515, 281886],
        vec![128315, 164773, 196445, 233340, 258514, 281884],
        vec![128315, 164773, 196444, 233339, 258512, 281881],
        vec![128314, 164772, 196443, 233338, 258510, 281879],
        vec![128314, 164772, 196442, 233336, 258508, 281877],
        vec![128314, 164771, 196442, 233335, 258507, 281875],
        vec![128314, 164771, 196441, 233334, 258505, 281873],
        vec![128313, 164770, 196440, 233333, 258503, 281870],
        vec![128313, 164770, 196439, 233331, 258502, 281868],
        vec![128313, 164769, 196438, 233330, 258500, 281866],
        vec![128312, 164769, 196437, 233329, 258498, 281864],
    ];
    assert(rows_wf(r@));
    r
}

/// Table rows for degrees-of-freedom buckets 540 to 616.
fn rows_07() -> (r: Vec<Vec<u64>>)
    ensures
        r@.len() == 77,
        rows_wf(r@),
{
    let r: Vec<Vec<u64>> = vec![
        vec![128312, 164768, 196437, 233327, 258496, 281862],
        vec![128312, 164768, 196436, 233326, 258495, 281860],
        vec![128312, 164767, 196435, 233325, 258493, 281857],
        vec![128311, 164766, 196434, 233323, 258491, 281855],
        vec![128311, 164766, 196433, 233322, 258490, 281853],
        vec![128311, 164765, 196433, 233321, 258488, 281851],
        vec![128310, 164765, 196432, 233320, 258486, 281849],
        vec![128310, 164764, 196431, 233318, 258485, 281847],
        vec![128310, 164764, 196430, 233317, 258483, 281845],
        vec![128310, 164763, 196429, 233316, 258481, 281843],
        vec![128309, 164763, 196429, 233315, 258480, 281841],
        vec![128309, 164762, 196428, 233313, 258478, 281839],
        vec![128309, 164762, 196427, 233312, 258477, 281836],
        vec![128308, 164761, 196426, 233311, 258475, 281834],
        vec![128308, 164761, 196426, 233310, 258473, 281832],
        vec![128308, 164760, 196425, 233309, 258472, 281830],
        vec![128308, 164760, 196424, 233307, 258470, 281828],
        vec![128307, 164759, 196423, 233306, 258468, 281826],
        vec![128307, 164759, 196422, 233305, 258467, 281824],
        vec![128307, 164758, 196422, 233304, 258465, 281822],
        vec![128307, 164758, 196421, 233303, 258464, 281820],
        vec![128306, 164757, 196420, 233301, 258462, 281818],
        vec![128306, 164757, 196419, 233300, 258461, 281816],
        vec![128306, 164756, 196419, 233299, 258459, 281814],
        vec![128305, 164756, 196418, 233298, 258457, 281812],
        vec![128305, 164756, 196417, 233297, 258456, 281810],
        vec![128305, 164755, 196416, 233295, 258454, 281808],
        vec![128305, 164755, 196416, 233294, 258453, 281806],
        vec![128304, 164754, 196415, 233293, 258451, 281804],
        vec![128304, 164754, 196414, 233292, 258450, 281802],
        vec![128304, 164753, 196413, 233291, 258448, 281801],
        vec![128304, 164753, 196413, 233290, 258447, 281799],
        vec![128303, 164752, 196412, 233288, 258445, 281797],
        vec![128303, 164752, 196411, 233287, 258444, 281795],
        vec![128303, 164751, 196411, 233286, 258442, 281793],
        vec![128303, 164751, 196410, 233285, 258441, 281791],
        vec![128302, 164750, 196409, 233284, 258439, 281789],
        vec![128302, 164750, 196408, 233283, 258438, 281787],
        vec![128302, 164749, 196408, 233282, 258436, 281785],
        vec![128302, 164749, 196407, 233281, 258435, 281783],
        vec![128301, 164749, 196406, 233279, 258433, 281782],
        vec![128301, 164748, 196406, 233278, 258432, 281780],
        vec![128301, 164748, 196405, 233277, 258430, 281778],
        vec![128301, 164747, 196404, 233276, 258429, 281776],
        vec![128300, 164747, 196403, 233275, 258427, 281774],
        vec![128300, 164746, 196403, 233274, 258426, 281772],
        vec![128300, 164746, 196402, 233273, 258425, 281770],
        vec![128300, 164745, 196401, 233272, 258423, 281769],
        vec![128299, 164745, 196401, 233271, 258422, 281767],
        vec![128299, 164744, 196400, 233270, 258420, 281765],
        vec![128299, 164744, 196399, 233268, 258419, 281763],
        vec![128299, 164744, 196399, 233267, 258417, 281761],
        vec![128298, 164743, 196398, 233266, 258416, 281760],
        vec![128298, 164743, 196397, 233265, 258415, 281758],
        vec![128298, 164742, 196397, 233264, 258413, 281756],
        vec![128298, 164742, 196396, 233263, 258412, 281754],
        vec![128297, 164741, 196395, 233262, 258410, 281753],
        vec![128297, 164741, 196395, 233261, 258409, 281751],
        vec![128297, 164741, 196394, 233260, 258408, 281749],
        vec![128297, 164740, 196393, 233259, 258406, 281747],
        vec![128296, 164740, 196393, 233258, 258405, 281745],
        vec![128296, 164739, 196392, 233257, 258403, 281744],
        vec![128296, 164739, 196391, 233256, 258402, 281742],
        vec![128296, 164738, 196391, 233255, 258401, 281740],
        vec![128295, 164738, 196390, 233254, 258399, 281739],
        vec![128295, 164738, 196389, 233253, 258398, 281737],
        vec![128295, 164737, 196389, 233252, 258397, 281735],
        vec![128295, 164737, 196388, 233251, 258395, 281733],
        vec![128295, 164736, 196387, 233250, 258394, 281732],
        vec![128294, 164736, 196387, 233249, 258393, 281730],
        vec![128294, 164736, 196386, 233248, 258391, 281728],
        vec![128294, 164735, 196385, 233247, 258390, 281727],
        vec![128294, 164735, 196385, 233246, 258389, 281725],
        vec![128293, 164734, 196384, 233245, 258387, 281723],
        vec![128293, 164734, 196384, 233244, 258386, 281722],
        vec![128293, 164734, 196383, 233243, 258385, 281720],
        vec![128293, 164733, 196382, 233242, 258383, 281718],
    ];
    assert(rows_wf(r@));
    r
}

/// Table rows for degrees-of-freedom buckets 617 to 693.
fn rows_08() -> (r: Vec<Vec<u64>>)
    ensures
        r@.len() == 77,
        rows_wf(r@),
{
    let r: Vec<Vec<u64>> = vec![
        vec![128293, 164733, 196382, 233241, 258382, 281717],
        vec![128292, 164732, 196381, 233240, 258381, 281715],
        vec![128292, 164732, 196380, 233239, 258380, 281713],
        vec![128292, 164732, 196380, 233238, 258378, 281712],
        vec![128292, 164731, 196379, 233237, 258377, 281710],
        vec![128291, 164731, 196379, 233236, 258376, 281709],
        vec![128291, 164730, 196378, 233235, 258374, 281707],
        vec![128291, 164730, 196377, 233234, 258373, 281705],
        vec![128291, 164730, 196377, 233233, 258372, 281704],
        vec![128291, 164729, 196376, 233232, 258371, 281702],
        vec![128290, 164729, 196375, 233231, 258369, 281700],
        vec![128290, 164728, 196375, 233230, 258368, 281699],
        vec![128290, 164728, 196374, 233229, 258367, 281697],
        vec![128290, 164728, 196374, 233228, 258366, 281696],
        vec![128289, 164727, 196373, 233227, 258364, 281694],
        vec![128289, 164727, 196372, 233226, 258363, 281693],
        vec![128289, 164726, 196372, 233225, 258362, 281691],
        vec![128289, 164726, 196371, 233224, 258361, 281689],
        vec![128289, 164726, 196371, 233223, 258359, 281688],
        vec![128288, 164725, 196370, 233223, 258358, 281686],
        vec![128288, 164725, 196370, 233222, 258357, 281685],
        vec![128288, 164725, 196369, 233221, 258356, 281683],
        vec![128288, 164724, 196368, 233220, 258355, 281682],
        vec![128288, 164724, 196368, 233219, 258353, 281680],
        vec![128287, 164723, 196367, 233218, 258352, 281679],
        vec![128287, 164723, 196367, 233217, 258351, 281677],
        vec![128287, 164723, 196366, 233216, 258350, 281676],
        vec![128287, 164722, 196365, 233215, 258349, 281674],
        vec![128287, 164722, 196365, 233214, 258347, 281673],
        vec![128286, 164722, 196364, 233213, 258346, 281671],
        vec![128286, 164721, 196364, 233213, 258345, 281670],
        vec![128286, 164721, 196363, 233212, 258344, 281668],
        vec![128286, 164720, 196363, 233211, 258343, 281667],
        vec![128286, 164720, 196362, 233210, 258341, 281665],
        vec![128285, 164720, 196361, 233209, 258340, 281664],
        vec![128285, 164719, 196361, 233208, 258339, 281662],
        vec![128285, 164719, 196360, 233207, 258338, 281661],
        vec![128285, 164719, 196360, 233206, 258337, 281659],
        vec![128285, 164718, 196359, 233205, 258336, 281658],
        vec![128284, 164718, 196359, 233205, 258334, 281656],
        vec![128284, 164718, 196358, 233204, 258333, 281655],
        vec![128284, 164717, 196358, 233203, 258332, 281653],
        vec![128284, 164717, 196357, 233202, 258331, 281652],
        vec![128284, 164717, 196356, 233201, 258330, 281650],
        vec![128283, 164716, 196356, 233200, 258329, 281649],
        vec![128283, 164716, 196355, 233199, 258328, 281648],
        vec![128283, 164716, 196355, 233199, 258327, 281646],
        vec![128283, 164715, 196354, 233198, 258325, 281645],
        vec![128283, 164715, 196354, 233197, 258324, 281643],
        vec![128282, 164714, 196353, 233196, 258323, 281642],
        vec![128282, 164714, 196353, 233195, 258322, 281640],
        vec![128282, 164714, 196352, 233194, 258321, 281639],
        vec![128282, 164713, 196352, 233193, 258320, 281638],
        vec![128282, 164713, 196351, 233193, 258319, 281636],
        vec![128281, 164713, 196351, 233192, 258318, 281635],
        vec![128281, 164712, 196350, 233191, 258317, 281633],
        vec![128281, 164712, 196350, 233190, 258315, 281632],
        vec![128281, 164712, 196349, 233189, 258314, 281631],
        vec![128281, 164711, 196348, 233189, 258313, 281629],
        vec![128281, 164711, 196348, 233188, 258312, 281628],
        vec![128280, 164711, 196347, 233187, 258311, 281627],
        vec![128280, 164710, 196347, 233186, 258310, 281625],
        vec![128280, 164710, 196346, 233185, 258309, 281624],
        vec![128280, 164710, 196346, 233184, 258308, 281623],
        vec![128280, 164709, 196345, 233184, 258307, 281621],
        vec![128279, 164709, 196345, 233183, 258306, 281620],
        vec![128279, 164709, 196344, 233182, 258305, 281618],
        vec![128279, 164708, 196344, 233181, 258304, 281617],
        vec![128279, 164708, 196343, 233180, 258303, 281616],
        vec![128279, 164708, 196343, 233180, 258302, 281614],
        vec![128279, 164707, 196342, 233179, 258300, 281613],
        vec![128278, 164707, 196342, 233178, 258299, 281612],
        vec![128278, 164707, 196341, 233177, 258298, 281610],
        vec![128278, 164706, 196341, 233176, 258297, 281609],
        vec![128278, 164706, 196340, 233176, 258296, 281608],
        vec![128278, 164706, 196340, 233175, 258295, 281607],
        vec![128277, 164706, 196339, 233174, 258294, 281605],
    ];
    assert(rows_wf(r@));
    r
}

/// Table rows for degrees-of-freedom buckets 694 to 770.
fn rows_09() -> (r: Vec<Vec<u64>>)
    ensures
        r@.len() == 77,
        rows_wf(r@),
{
    let r: Vec<Vec<u64>> = vec![
        vec![128277, 164705, 196339, 233173, 258293, 281604],
        vec![128277, 164705, 196338, 233173, 258292, 281603],
        vec![128277, 164705, 196338, 233172, 258291, 281601],
        vec![128277, 164704, 196337, 233171, 258290, 281600],
        vec![128277, 164704, 196337, 233170, 258289, 281599],
        vec![128276, 164704, 196336, 233169, 258288, 281597],
        vec![128276, 164703, 196336, 233169, 258287, 281596],
        vec![128276, 164703, 196335, 233168, 258286, 281595],
        vec![128276, 164703, 196335, 233167, 258285, 281594],
        vec![128276, 164702, 196334, 233166, 258284, 281592],
        vec![128276, 164702, 196334, 233166, 258283, 281591],
        vec![128275, 164702, 196333, 233165, 258282, 281590],
        vec![128275, 164701, 196333, 233164, 258281, 281589],
        vec![128275, 164701, 196333, 233163, 258280, 281587],
        vec![128275, 164701, 196332, 233163, 258279, 281586],
        vec![128275, 164701, 196332, 233162, 258278, 281585],
        vec![128275, 164700, 196331, 233161, 258277, 281584],
        vec![128274, 164700, 196331, 233160, 258276, 281582],
        vec![128274, 164700, 196330, 233160, 258275, 281581],
        vec![128274, 164699, 196330, 233159, 258274, 281580],
        vec![128274, 164699, 196329, 233158, 258273, 281579],
        vec![128274, 164699, 196329, 233157, 258272, 281577],
        vec![128274, 164698, 196328, 233157, 258271, 281576],
        vec![128273, 164698, 196328, 233156, 258270, 281575],
        vec![128273, 164698, 196327, 233155, 258269, 281574],
        vec![128273, 164698, 196327, 233155, 258268, 281573],
        vec![128273, 164697, 196326, 233154, 258267, 281571],
        vec![128273, 164697, 196326, 233153, 258267, 281570],
        vec![128273, 164697, 196326, 233152, 258266, 281569],
        vec![128272, 164696, 196325, 233152, 258265, 281568],
        vec![128272, 164696, 196325, 233151, 258264, 281566],
        vec![128272, 164696, 196324, 233150, 258263, 281565],
        vec![128272, 164696, 196324, 233150, 258262, 281564],
        vec![128272, 164695, 196323, 233149, 258261, 281563],
        vec![128272, 164695, 196323, 233148, 258260, 281562],
        vec![128271, 164695, 196322, 233147, 258259, 281561],
        vec![128271, 164694, 196322, 233147, 258258, 281559],
        vec![128271, 164694, 196321, 233146, 258257, 281558],
        vec![128271, 164694, 196321, 233145, 258256, 281557],
        vec![128271, 164694, 196321, 233145, 258255, 281556],
        vec![128271, 164693, 196320, 233144, 258254, 281555],
        vec![128270, 164693, 196320, 233143, 258253, 281554],
        vec![128270, 164693, 196319, 233143, 258253, 281552],
        vec![128270, 164692, 196319, 233142, 258252, 281551],
        vec![128270, 164692, 196318, 233141, 258251, 281550],
        vec![128270, 164692, 196318, 233140, 258250, 281549],
        vec![128270, 164692, 196317, 233140, 258249, 281548],
        vec![128270, 164691, 196317, 233139, 258248, 281547],
        vec![128269, 164691, 196317, 233138, 258247, 281546],
        vec![128269, 164691, 196316, 233138, 258246, 281544],
        vec![128269, 164690, 196316, 233137, 258245, 281543],
        vec![128269, 164690, 196315, 233136, 258244, 281542],
        vec![128269, 164690, 196315, 233136, 258244, 281541],
        vec![128269, 164690, 196314, 233135, 258243, 281540],
        vec![128268, 164689, 196314, 233134, 258242, 281539],
        vec![128268, 164689, 196314, 233134, 258241, 281538],
        vec![128268, 164689, 196313, 233133, 258240, 281536],
        vec![128268, 164689, 196313, 233132, 258239, 281535],
        vec![128268, 164688, 196312, 233132, 258238, 281534],
        vec![128268, 164688, 196312, 233131, 258237, 281533],
        vec![128268, 164688, 196312, 233130, 258237, 281532],
        vec![128267, 164687, 196311, 233130, 258236, 281531],
        vec![128267, 164687, 196311, 233129, 258235, 281530],
        vec![128267, 164687, 196310, 233128, 258234, 281529],
        vec![128267, 164687, 196310, 233128, 258233, 281528],
        vec![128267, 164686, 196309, 233127, 258232, 281527],
        vec![128267, 164686, 196309, 233126, 258231, 281526],
        vec![128267, 164686, 196309, 233126, 258231, 281524],
        vec![128266, 164686, 196308, 233125, 258230, 281523],
        vec![128266, 164685, 196308, 233125, 258229, 281522],
        vec![128266, 164685, 196307, 233124, 258228, 281521],
        vec![128266, 164685, 196307, 233123, 258227, 281520],
        vec![128266, 164685, 196307, 233123, 258226, 281519],
        vec![128266, 164684, 196306, 233122, 258225, 281518],
        vec![128265, 164684, 196306, 233121, 258225, 281517],
        vec![128265, 164684, 196305, 233121, 258224, 281516],
        vec![128265, 164683, 196305, 233120, 258223, 281515],
    ];
    assert(rows_wf(r@));
    r
}

/// Table rows for degrees-of-freedom buckets 771 to 847.
fn rows_10() -> (r: Vec<Vec<u64>>)
    ensures
        r@.len() == 77,
        rows_wf(r@),
{
    let r: Vec<Vec<u64>> = vec![
        vec![128265, 164683, 196305, 233119, 258222, 281514],
        vec![128265, 164683, 196304, 233119, 258221, 281513],
        vec![128265, 164683, 196304, 233118, 258220, 281512],
        vec![128265, 164682, 196303, 233118, 258220, 281511],
        vec![128264, 164682, 196303, 233117, 258219, 281510],
        vec![128264, 164682, 196303, 233116, 258218, 281509],
        vec![128264, 164682, 196302, 233116, 258217, 281507],
        vec![128264, 164681, 196302, 233115, 258216, 281506],
        vec![128264, 164681, 196301, 233114, 258216, 281505],
        vec![128264, 164681, 196301, 233114, 258215, 281504],
        vec![128264, 164681, 196301, 233113, 258214, 281503],
        vec![128264, 164680, 196300, 233113, 258213, 281502],
        vec![128263, 164680, 196300, 233112, 258212, 281501],
        vec![128263, 164680, 196299, 233111, 258211, 281500],
        vec![128263, 164680, 196299, 233111, 258211, 281499],
        vec![128263, 164679, 196299, 233110, 258210, 281498],
        vec![128263, 164679, 196298, 233110, 258209, 281497],
        vec![128263, 164679, 196298, 233109, 258208, 281496],
        vec![128263, 164679, 196298, 233108, 258207, 281495],
        vec![128262, 164678, 196297, 233108, 258207, 281494],
        vec![128262, 164678, 196297, 233107, 258206, 281493],
        vec![128262, 164678, 196296, 233107, 258205, 281492],
        vec![128262, 164678, 196296, 233106, 258204, 281491],
        vec![128262, 164677, 196296, 233105, 258204, 281490],
        vec![128262, 164677, 196295, 233105, 258203, 281489],
        vec![128262, 164677, 196295, 233104, 258202, 281488],
        vec![128261, 164677, 196294, 233104, 258201, 281487],
        vec![128261, 164677, 196294, 233103, 258200, 281486],
        vec![128261, 164676, 196294, 233102, 258200, 281485],
        vec![128261, 164676, 196293, 233102, 258199, 281484],
        vec![128261, 164676, 196293, 233101, 258198, 281483],
        vec![128261, 164676, 196293, 233101, 258197, 281482],
        vec![128261, 164675, 196292, 233100, 258197, 281481],
        vec![128261, 164675, 196292, 233099, 258196, 281480],
        vec![128260, 164675, 196292, 233099, 258195, 281479],
        vec![128260, 164675, 196291, 233098, 258194, 281478],
        vec![128260, 164674, 196291, 233098, 258194, 281478],
        vec![128260, 164674, 196290, 233097, 258193, 281477],
        vec![128260, 164674, 196290, 233097, 258192, 281476],
        vec![128260, 164674, 196290, 233096, 258191, 281475],
        vec![128260, 164673, 196289, 233095, 258191, 281474],
        vec![128260, 164673, 196289, 233095, 258190, 281473],
        vec![128259, 164673, 196289, 233094, 258189, 281472],
        vec![128259, 164673, 196288, 233094, 258188, 281471],
        vec![128259, 164673, 196288, 233093, 258188, 281470],
        vec![128259, 164672, 196288, 233093, 258187, 281469],
        vec![128259, 164672, 196287, 233092, 258186, 281468],
        vec![128259, 164672, 196287, 233092, 258185, 281467],
        vec![128259, 164672, 196286, 233091, 258185, 281466],
        vec![128258, 164671, 196286, 233090, 258184, 281465],
        vec![128258, 164671, 196286, 233090, 258183, 281464],
        vec![128258, 164671, 196285, 233089, 258182, 281463],
        vec![128258, 164671, 196285, 233089, 258182, 281462],
        vec![128258, 164670, 196285, 233088, 258181, 281461],
        vec![128258, 164670, 196284, 233088, 258180, 281461],
        vec![128258, 164670, 196284, 233087, 258179, 281460],
        vec![128258, 164670, 196284, 233087, 258179, 281459],
        vec![128257, 164670, 196283, 233086, 258178, 281458],
        vec![128257, 164669, 196283, 233085, 258177, 281457],
        vec![128257, 164669, 196283, 233085, 258177, 281456],
        vec![128257, 164669, 196282, 233084, 258176, 281455],
        vec![128257, 164669, 196282, 233084, 258175, 281454],
        vec![128257, 164668, 196282, 233083, 258174, 281453],
        vec![128257, 164668, 196281, 233083, 258174, 281452],
        vec![128257, 164668, 196281, 233082, 258173, 281451],
        vec![128257, 164668, 196281, 233082, 258172, 281451],
        vec![128256, 164668, 196280, 233081, 258172, 281450],
        vec![128256, 164667, 196280, 233081, 258171, 281449],
        vec![128256, 164667, 196280, 233080, 258170, 281448],
        vec![128256, 164667, 196279, 233080, 258169, 281447],
        vec![128256, 164667, 196279, 233079, 258169, 281446],
        vec![128256, 164667, 196279, 233078, 258168, 281445],
        vec![128256, 164666, 196278, 233078, 258167, 281444],
        vec![128256, 164666, 196278, 233077, 258167, 281443],
        vec![128255, 164666, 196278, 233077, 258166, 281443],
        vec![128255, 164666, 196277, 233076, 258165, 281442],
        vec![128255, 164665, 196277, 233076, 258165, 281441],
    ];
    assert(rows_wf(r@));
    r
}

/// Table rows for degrees-of-freedom buckets 848 to 924.
fn rows_11() -> (r: Vec<Vec<u64>>)
    ensures
        r@.len() == 77,
        rows_wf(r@),
{
    let r: Vec<Vec<u64>> = vec![
        vec![128255, 164665, 196277, 233075, 258164, 281440],
        vec![128255, 164665, 196276, 233075, 258163, 281439],
        vec![128255, 164665, 196276, 233074, 258163, 281438],
        vec![128255, 164665, 196276, 233074, 258162, 281437],
        vec![128255, 164664, 196275, 233073, 258161, 281437],
        vec![128254, 164664, 196275, 233073, 258161, 281436],
        vec![128254, 164664, 196275, 233072, 258160, 281435],
        vec![128254, 164664, 196274, 233072, 258159, 281434],
        vec![128254, 164664, 196274, 233071, 258159, 281433],
        vec![128254, 164663, 196274, 233071, 258158, 281432],
        vec![128254, 164663, 196273, 233070, 258157, 281431],
        vec![128254, 164663, 196273, 233070, 258156, 281431],
        vec![128254, 164663, 196273, 233069, 258156, 281430],
        vec![128254, 164663, 196272, 233069, 258155, 281429],
        vec![128253, 164662, 196272, 233068, 258154, 281428],
        vec![128253, 164662, 196272, 233068, 258154, 281427],
        vec![128253, 164662, 196271, 233067, 258153, 281426],
        vec![128253, 164662, 196271, 233067, 258153, 281425],
        vec![128253, 164662, 196271, 233066, 258152, 281425],
        vec![128253, 164661, 196270, 233066, 258151, 281424],
        vec![128253, 164661, 196270, 233065, 258151, 281423],
        vec![128253, 164661, 196270, 233065, 258150, 281422],
        vec![128253, 164661, 196269, 233064, 258149, 281421],
        vec![128252, 164660, 196269, 233064, 258149, 281420],
        vec![128252, 164660, 196269, 233063, 258148, 281420],
        vec![128252, 164660, 196269, 233063, 258147, 281419],
        vec![128252, 164660, 196268, 233062, 258147, 281418],
        vec![128252, 164660, 196268, 233062, 258146, 281417],
        vec![128252, 164659, 196268, 233061, 258145, 281416],
        vec![128252, 164659, 196267, 233061, 258145, 281416],
        vec![128252, 164659, 196267, 233060, 258144, 281415],
        vec![128252, 164659, 196267, 233060, 258143, 281414],
        vec![128251, 164659, 196266, 233059, 258143, 281413],
        vec![128251, 164659, 196266, 233059, 258142, 281412],
        vec![128251, 164658, 196266, 233058, 258141, 281412],
        vec![128251, 164658, 196265, 233058, 258141, 281411],
        vec![128251, 164658, 196265, 233057, 258140, 281410],
        vec![128251, 164658, 196265, 233057, 258140, 281409],
        vec![128251, 164658, 196265, 233056, 258139, 281408],
        vec![128251, 164657, 196264, 233056, 258138, 281408],
        vec![128251, 164657, 196264, 233055, 258138, 281407],
        vec![128250, 164657, 196264, 233055, 258137, 281406],
        vec![128250, 164657, 196263, 233055, 258136, 281405],
        vec![128250, 164657, 196263, 233054, 258136, 281404],
        vec![128250, 164656, 196263, 233054, 258135, 281404],
        vec![128250, 164656, 196262, 233053, 258135, 281403],
        vec![128250, 164656, 196262, 233053, 258134, 281402],
        vec![128250, 164656, 196262, 233052, 258133, 281401],
        vec![128250, 164656, 196262, 233052, 258133, 281400],
        vec![128250, 164655, 196261, 233051, 258132, 281400],
        vec![128250, 164655, 196261, 233051, 258132, 281399],
        vec![128249, 164655, 196261, 233050, 258131, 281398],
        vec![128249, 164655, 196260, 233050, 258130, 281397],
        vec![128249, 164655, 196260, 233049, 258130, 281397],
        vec![128249, 164654, 196260, 233049, 258129, 281396],
        vec![128249, 164654, 196259, 233048, 258128, 281395],
        vec![128249, 164654, 196259, 233048, 258128, 281394],
        vec![128249, 164654, 196259, 233048, 258127, 281393],
        vec![128249, 164654, 196259, 233047, 258127, 281393],
        vec![128249, 164654, 196258, 233047, 258126, 281392],
        vec![128248, 164653, 196258, 233046, 258125, 281391],
        vec![128248, 164653, 196258, 233046, 258125, 281390],
        vec![128248, 164653, 196257, 233045, 258124, 281390],
        vec![128248, 164653, 196257, 233045, 258124, 281389],
        vec![128248, 164653, 196257, 233044, 258123, 281388],
        vec![128248, 164652, 196257, 233044, 258122, 281387],
        vec![128248, 164652, 196256, 233043, 258122, 281387],
        vec![128248, 164652, 196256, 233043, 258121, 281386],
        vec![128248, 164652, 196256, 233043, 258121, 281385],
        vec![128248, 164652, 196255, 233042, 258120, 281384],
        vec![128247, 164652, 196255, 233042, 258120, 281384],
        vec![128247, 164651, 196255, 233041, 258119, 281383],
        vec![128247, 164651, 196255, 233041, 258118, 281382],
        vec![128247, 164651, 196254, 233040, 258118, 281381],
        vec![128247, 164651, 196254, 233040, 258117, 281381],
        vec![128247, 164651, 196254, 233039, 258117, 281380],
        vec![128247, 164650, 196253, 233039, 258116, 281379],
    ];
    assert(rows_wf(r@));
    r
}

/// Table rows for degrees-of-freedom buckets 925 to 1000, then the asymptotic row.
fn rows_12() -> (r: Vec<Vec<u64>>)
    ensures
        r@.len() == 77,
        rows_wf(r@),
        r@[75]@[2] == 196234,
        r@[76]@ =~= seq![128155u64, 164485, 195996, 232635, 257583, 280703],
{
    let r: Vec<Vec<u64>> = vec![
        vec![128247, 164650, 196253, 233039, 258115, 281379],
        vec![128247, 164650, 196253, 233038, 258115, 281378],
        vec![128247, 164650, 196253, 233038, 258114, 281377],
        vec![128246, 164650, 196252, 233037, 258114, 281376],
        vec![128246, 164650, 196252, 233037, 258113, 281376],
        vec![128246, 164649, 196252, 233036, 258113, 281375],
        vec![128246, 164649, 196252, 233036, 258112, 281374],
        vec![128246, 164649, 196251, 233036, 258111, 281373],
        vec![128246, 164649, 196251, 233035, 258111, 281373],
        vec![128246, 164649, 196251, 233035, 258110, 281372],
        vec![128246, 164648, 196250, 233034, 258110, 281371],
        vec![128246, 164648, 196250, 233034, 258109, 281371],
        vec![128246, 164648, 196250, 233033, 258109, 281370],
        vec![128245, 164648, 196250, 233033, 258108, 281369],
        vec![128245, 164648, 196249, 233033, 258108, 281368],
        vec![128245, 164648, 196249, 233032, 258107, 281368],
        vec![128245, 164647, 196249, 233032, 258106, 281367],
        vec![128245, 164647, 196249, 233031, 258106, 281366],
        vec![128245, 164647, 196248, 233031, 258105, 281366],
        vec![128245, 164647, 196248, 233030, 258105, 281365],
        vec![128245, 164647, 196248, 233030, 258104, 281364],
        vec![128245, 164647, 196247, 233030, 258104, 281364],
        vec![128245, 164646, 196247, 233029, 258103, 281363],
        vec![128245, 164646, 196247, 233029, 258103, 281362],
        vec![128244, 164646, 196247, 233028, 258102, 281361],
        vec![128244, 164646, 196246, 233028, 258101, 281361],
        vec![128244, 164646, 196246, 233028, 258101, 281360],
        vec![128244, 164646, 196246, 233027, 258100, 281359],
        vec![128244, 164645, 196246, 233027, 258100, 281359],
        vec![128244, 164645, 196245, 233026, 258099, 281358],
        vec![128244, 164645, 196245, 233026, 258099, 281357],
        vec![128244, 164645, 196245, 233025, 258098, 281357],
        vec![128244, 164645, 196245, 233025, 258098, 281356],
        vec![128244, 164645, 196244, 233025, 258097, 281355],
        vec![128243, 164644, 196244, 233024, 258097, 281355],
        vec![128243, 164644, 196244, 233024, 258096, 281354],
        vec![128243, 164644, 196244, 233023, 258095, 281353],
        vec![128243, 164644, 196243, 233023, 258095, 281353],
        vec![128243, 164644, 196243, 233023, 258094, 281352],
        vec![128243, 164644, 196243, 233022, 258094, 281351],
        vec![128243, 164643, 196243, 233022, 258093, 281350],
        vec![128243, 164643, 196242, 233021, 258093, 281350],
        vec![128243, 164643, 196242, 233021, 258092, 281349],
        vec![128243, 164643, 196242, 233021, 258092, 281348],
        vec![128243, 164643, 196242, 233020, 258091, 281348],
        vec![128242, 164643, 196241, 233020, 258091, 281347],
        vec![128242, 164642, 196241, 233019, 258090, 281346],
        vec![128242, 164642, 196241, 233019, 258090, 281346],
        vec![128242, 164642, 196241, 233019, 258089, 281345],
        vec![128242, 164642, 196240, 233018, 258089, 281344],
        vec![128242, 164642, 196240, 233018, 258088, 281344],
        vec![128242, 164642, 196240, 233017, 258088, 281343],
        vec![128242, 164641, 196240, 233017, 258087, 281343],
        vec![128242, 164641, 196239, 233017, 258087, 281342],
        vec![128242, 164641, 196239, 233016, 258086, 281341],
        vec![128242, 164641, 196239, 233016, 258086, 281341],
        vec![128242, 164641, 196239, 233016, 258085, 281340],
        vec![128241, 164641, 196238, 233015, 258085, 281339],
        vec![128241, 164641, 196238, 233015, 258084, 281339],
        vec![128241, 164640, 196238, 233014, 258083, 281338],
        vec![128241, 164640, 196238, 233014, 258083, 281337],
        vec![128241, 164640, 196237, 233014, 258082, 281337],
        vec![128241, 164640, 196237, 233013, 258082, 281336],
        vec![128241, 164640, 196237, 233013, 258081, 281335],
        vec![128241, 164640, 196237, 233012, 258081, 281335],
        vec![128241, 164639, 196236, 233012, 258080, 281334],
        vec![128241, 164639, 196236, 233012, 258080, 281333],
        vec![128241, 164639, 196236, 233011, 258079, 281333],
        vec![128240, 164639, 196236, 233011, 258079, 281332],
        vec![128240, 164639, 196235, 233011, 258078, 281332],
        vec![128240, 164639, 196235, 233010, 258078, 281331],
        vec![128240, 164638, 196235, 233010, 258077, 281330],
        vec![128240, 164638, 196235, 233009, 258077, 281330],
        vec![128240, 164638, 196234, 233009, 258076, 281329],
        vec![128240, 164638, 196234, 233009, 258076, 281328],
        vec![128240, 164638, 196234, 233008, 258075, 281328],
        vec![128155, 164485, 195996, 232635, 257583, 280703],
    ];
    assert(rows_wf(r@));
    r
}

impl CriticalValueTable {
    /// A table is usable once it holds all 1001 six-column rows.
    pub closed spec fn wf(&self) -> bool {
        self.rows@.len() == 1001 && rows_wf(self.rows@)
    }

    /// The table's entries: row by degrees-of-freedom bucket, column by
    /// confidence-level index.
    pub closed spec fn view(&self) -> Seq<Seq<u64>> {
        self.rows@.map_values(|r: Vec<u64>| r@)
    }

    /// The row that a degrees-of-freedom count selects: its own row up to
    /// 1000, the asymptotic row beyond that.
    pub open spec fn bucket_of(df: int) -> int {
        if df > 1000 {
            1000
        } else {
            df - 1
        }
    }

    /// Build the table.
    pub fn new() -> (t: CriticalValueTable)
        ensures
            t.wf(),
            t@.len() == 1001,
            t@[0] =~= seq![307768u64, 631375, 1270620, 3182052, 6365674, 12732134],
            t@[3][2] == 277645,
            t@[999][2] == 196234,
            t@[1000] =~= seq![128155u64, 164485, 195996, 232635, 257583, 280703],
    {
        let mut rows: Vec<Vec<u64>> = rows_00();

        let mut part: Vec<Vec<u64>> = rows_01();
        assert(rows_wf(rows@ + part@));
        rows.append(&mut part);
        let mut part: Vec<Vec<u64>> = rows_02();
        assert(rows_wf(rows@ + part@));
        rows.append(&mut part);
        let mut part: Vec<Vec<u64>> = rows_03();
        assert(rows_wf(rows@ + part@));
        rows.append(&mut part);
        let mut part: Vec<Vec<u64>> = rows_04();
        assert(rows_wf(rows@ + part@));
        rows.append(&mut part);
        let mut part: Vec<Vec<u64>> = rows_05();
        assert(rows_wf(rows@ + part@));
        rows.append(&mut part);
        let mut part: Vec<Vec<u64>> = rows_06();
        assert(rows_wf(rows@ + part@));
        rows.append(&mut part);
        let mut part: Vec<Vec<u64>> = rows_07();
        assert(rows_wf(rows@ + part@));
        rows.append(&mut part);
        let mut part: Vec<Vec<u64>> = rows_08();
        assert(rows_wf(rows@ + part@));
        rows.append(&mut part);
        let mut part: Vec<Vec<u64>> = rows_09();
        assert(rows_wf(rows@ + part@));
        rows.append(&mut part);
        let mut part: Vec<Vec<u64>> = rows_10();
        assert(rows_wf(rows@ + part@));
        rows.append(&mut part);
        let mut part: Vec<Vec<u64>> = rows_11();
        assert(rows_wf(rows@ + part@));
        rows.append(&mut part);
        let mut part: Vec<Vec<u64>> = rows_12();
        assert(rows_wf(rows@ + part@));
        rows.append(&mut part);
        let t = CriticalValueTable { rows };
        assert(t@.len() == 1001);
        t
    }

    /// The scaled critical t-value for a degrees-of-freedom count and a
    /// confidence-level index: the selected bucket's entry, or an error when
    /// the count falls below the table's first row.
    pub fn critical_value(&self, df: usize, confidence_idx: usize) -> (r: Result<
        u64,
        MinistatFailure,
    >)
        requires
            self.wf(),
            confidence_idx < 6,
        ensures
            match r {
                Ok(v) => df >= 1 && v == self@[Self::bucket_of(df as int)][confidence_idx as int],
                Err(e) => df < 1 && e == MinistatFailure::InsufficientDegreesOfFreedom,
            },
    {
        if df < 1 {
            return Err(MinistatFailure::InsufficientDegreesOfFreedom);
        }
        let bucket: usize = if df > 1000 {
            1000
        } else {
            df - 1
        };
        let row: &Vec<u64> = &self.rows[bucket];
        Ok(row[confidence_idx])
    }
}

} // verus!
