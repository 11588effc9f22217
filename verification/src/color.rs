//! CIE color reconstruction and the sRGB output transform.
//!
//! The matching-function tables cover 380 to 800 nm on 1 nm centers (421
//! entries, fixed point); entries beyond 700 nm are zero. The transform to
//! sRGB applies the standard linear matrix, the range-compressing tone map
//! `v / (1 + |v|)`, and the sRGB transfer curve, whose power segment is
//! linearly interpolated from a fixed table.

use vstd::prelude::*;
use crate::fixed::{Fx, SCALE, fx_add, fx_sub, fx_mul, fx_div, clip, iabs};
use crate::spectrum::{LAMBDA_MIN_RAW, LAMBDA_MAX_RAW};

verus! {

/// Entries in each matching-function table: one per nm, 380 to 800.
pub const CIE_SAMPLES: usize = 421;

/// Entries in the transfer-curve table: the unit range in steps of 1/250,
/// both ends included.
pub const GAMMA_SAMPLES: usize = 251;

/// The step between transfer-curve table entries, in raw units.
pub const GAMMA_STEP_RAW: i64 = 4_000;

/// The CIE 1931 x-matching function on 1 nm centers from 380 nm, fixed
/// point, zero beyond 700 nm.
pub open spec fn cie_x_spec() -> Seq<i64> {
    seq![
    1368i64, 1502i64, 1642i64, 1802i64, 1996i64, 2236i64, 2535i64, 2893i64,
    3301i64, 3753i64, 4243i64, 4762i64, 5330i64, 5979i64, 6741i64, 7650i64,
    8751i64, 10029i64, 11422i64, 12869i64, 14310i64, 15704i64, 17147i64, 18781i64,
    20748i64, 23190i64, 26207i64, 29782i64, 33881i64, 38468i64, 43510i64, 48996i64,
    55023i64, 61719i64, 69212i64, 77630i64, 86958i64, 97177i64, 108406i64, 120767i64,
    134380i64, 149358i64, 165396i64, 181983i64, 198611i64, 214770i64, 230187i64, 244880i64,
    258777i64, 271808i64, 283900i64, 294944i64, 304896i64, 313787i64, 321645i64, 328500i64,
    334351i64, 339210i64, 343121i64, 346130i64, 348280i64, 349600i64, 350147i64, 350013i64,
    349287i64, 348060i64, 346373i64, 344262i64, 341809i64, 339094i64, 336200i64, 333198i64,
    330041i64, 326636i64, 322887i64, 318700i64, 314025i64, 308884i64, 303290i64, 297258i64,
    290800i64, 283970i64, 276721i64, 268918i64, 260423i64, 251100i64, 240848i64, 229851i64,
    218407i64, 206812i64, 195360i64, 184214i64, 173327i64, 162688i64, 152283i64, 142100i64,
    132179i64, 122570i64, 113275i64, 104298i64, 95640i64, 87300i64, 79308i64, 71718i64,
    64581i64, 57950i64, 51862i64, 46282i64, 41151i64, 36413i64, 32010i64, 27917i64,
    24144i64, 20687i64, 17540i64, 14700i64, 12162i64, 9920i64, 7967i64, 6296i64,
    4900i64, 3777i64, 2945i64, 2425i64, 2236i64, 2400i64, 2926i64, 3837i64,
    5175i64, 6982i64, 9300i64, 12149i64, 15536i64, 19478i64, 23993i64, 29100i64,
    34815i64, 41120i64, 47985i64, 55379i64, 63270i64, 71635i64, 80462i64, 89740i64,
    99456i64, 109600i64, 120167i64, 131114i64, 142368i64, 153854i64, 165500i64, 177257i64,
    189140i64, 201169i64, 213366i64, 225750i64, 238321i64, 251067i64, 263992i64, 277102i64,
    290400i64, 303891i64, 317573i64, 331438i64, 345483i64, 359700i64, 374084i64, 388640i64,
    403378i64, 418312i64, 433450i64, 448795i64, 464336i64, 480064i64, 495971i64, 512050i64,
    528296i64, 544692i64, 561209i64, 577822i64, 594500i64, 611221i64, 627976i64, 644760i64,
    661570i64, 678400i64, 695239i64, 712059i64, 728828i64, 745519i64, 762100i64, 778543i64,
    794826i64, 810926i64, 826825i64, 842500i64, 857932i64, 873082i64, 887894i64, 902318i64,
    916300i64, 929800i64, 942798i64, 955278i64, 967218i64, 978600i64, 989386i64, 999549i64,
    1009089i64, 1018006i64, 1026300i64, 1033983i64, 1040986i64, 1047188i64, 1052467i64, 1056700i64,
    1059794i64, 1061799i64, 1062807i64, 1062910i64, 1062200i64, 1060735i64, 1058444i64, 1055224i64,
    1050977i64, 1045600i64, 1039037i64, 1031361i64, 1022666i64, 1013048i64, 1002600i64, 991368i64,
    979331i64, 966492i64, 952848i64, 938400i64, 923194i64, 907244i64, 890502i64, 872920i64,
    854450i64, 835084i64, 814946i64, 794186i64, 772954i64, 751400i64, 729584i64, 707589i64,
    685602i64, 663810i64, 642400i64, 621515i64, 601114i64, 581105i64, 561398i64, 541900i64,
    522600i64, 503546i64, 484744i64, 466194i64, 447900i64, 429861i64, 412098i64, 394644i64,
    377533i64, 360800i64, 344456i64, 328517i64, 313019i64, 298001i64, 283500i64, 269545i64,
    256118i64, 243190i64, 230727i64, 218700i64, 207097i64, 195923i64, 185171i64, 174832i64,
    164900i64, 155367i64, 146230i64, 137490i64, 129147i64, 121200i64, 113640i64, 106465i64,
    99690i64, 93331i64, 87400i64, 81901i64, 76804i64, 72077i64, 67687i64, 63600i64,
    59807i64, 56282i64, 52971i64, 49819i64, 46770i64, 43784i64, 40875i64, 38073i64,
    35405i64, 32900i64, 30564i64, 28381i64, 26345i64, 24453i64, 22700i64, 21084i64,
    19600i64, 18237i64, 16987i64, 15840i64, 14791i64, 13831i64, 12949i64, 12129i64,
    11359i64, 0i64, 0i64, 0i64, 0i64, 0i64, 0i64, 0i64,
    0i64, 0i64, 0i64, 0i64, 0i64, 0i64, 0i64, 0i64,
    0i64, 0i64, 0i64, 0i64, 0i64, 0i64, 0i64, 0i64,
    0i64, 0i64, 0i64, 0i64, 0i64, 0i64, 0i64, 0i64,
    0i64, 0i64, 0i64, 0i64, 0i64, 0i64, 0i64, 0i64,
    0i64, 0i64, 0i64, 0i64, 0i64, 0i64, 0i64, 0i64,
    0i64, 0i64, 0i64, 0i64, 0i64, 0i64, 0i64, 0i64,
    0i64, 0i64, 0i64, 0i64, 0i64, 0i64, 0i64, 0i64,
    0i64, 0i64, 0i64, 0i64, 0i64, 0i64, 0i64, 0i64,
    0i64, 0i64, 0i64, 0i64, 0i64, 0i64, 0i64, 0i64,
    0i64, 0i64, 0i64, 0i64, 0i64, 0i64, 0i64, 0i64,
    0i64, 0i64, 0i64, 0i64, 0i64, 0i64, 0i64, 0i64,
    0i64, 0i64, 0i64, 0i64, 0i64,
    ]
}

/// The CIE 1931 y-matching function, laid out as [`cie_x_spec`].
pub open spec fn cie_y_spec() -> Seq<i64> {
    seq![
    39i64, 43i64, 47i64, 52i64, 57i64, 64i64, 72i64, 82i64,
    94i64, 106i64, 120i64, 135i64, 151i64, 170i64, 192i64, 217i64,
    247i64, 281i64, 319i64, 357i64, 396i64, 434i64, 473i64, 518i64,
    572i64, 640i64, 725i64, 826i64, 941i64, 1070i64, 1210i64, 1362i64,
    1531i64, 1720i64, 1935i64, 2180i64, 2455i64, 2764i64, 3118i64, 3526i64,
    4000i64, 4546i64, 5159i64, 5829i64, 6546i64, 7300i64, 8087i64, 8909i64,
    9768i64, 10664i64, 11600i64, 12573i64, 13583i64, 14630i64, 15715i64, 16840i64,
    18007i64, 19214i64, 20454i64, 21718i64, 23000i64, 24295i64, 25610i64, 26959i64,
    28351i64, 29800i64, 31311i64, 32884i64, 34521i64, 36226i64, 38000i64, 39847i64,
    41768i64, 43766i64, 45843i64, 48000i64, 50244i64, 52573i64, 54981i64, 57459i64,
    60000i64, 62602i64, 65278i64, 68042i64, 70911i64, 73900i64, 77016i64, 80266i64,
    83667i64, 87233i64, 90980i64, 94918i64, 99046i64, 103367i64, 107885i64, 112600i64,
    117532i64, 122674i64, 127993i64, 133453i64, 139020i64, 144676i64, 150469i64, 156462i64,
    162718i64, 169300i64, 176243i64, 183558i64, 191274i64, 199418i64, 208020i64, 217120i64,
    226734i64, 236857i64, 247481i64, 258600i64, 270185i64, 282294i64, 295050i64, 308578i64,
    323000i64, 338402i64, 354686i64, 371699i64, 389288i64, 407300i64, 425630i64, 444310i64,
    463394i64, 482940i64, 503000i64, 523569i64, 544512i64, 565690i64, 586965i64, 608200i64,
    629346i64, 650307i64, 670875i64, 690842i64, 710000i64, 728185i64, 745464i64, 761969i64,
    777837i64, 793200i64, 808110i64, 822496i64, 836307i64, 849492i64, 862000i64, 873811i64,
    884962i64, 895494i64, 905443i64, 914850i64, 923735i64, 932092i64, 939923i64, 947225i64,
    954000i64, 960256i64, 966007i64, 971261i64, 976022i64, 980300i64, 984092i64, 987481i64,
    990313i64, 992812i64, 994950i64, 996711i64, 998098i64, 999112i64, 999748i64, 1000000i64,
    999857i64, 999305i64, 998326i64, 996899i64, 995000i64, 992600i64, 989743i64, 986444i64,
    982724i64, 978600i64, 974084i64, 969171i64, 963857i64, 958135i64, 952000i64, 945450i64,
    938499i64, 931163i64, 923458i64, 915400i64, 907006i64, 898277i64, 889205i64, 879782i64,
    870000i64, 859861i64, 849392i64, 838622i64, 827581i64, 816300i64, 804795i64, 793082i64,
    781192i64, 769155i64, 757000i64, 744754i64, 732422i64, 720004i64, 707496i64, 694900i64,
    682219i64, 669472i64, 656674i64, 643845i64, 631000i64, 618156i64, 605314i64, 592476i64,
    579638i64, 566800i64, 553961i64, 541137i64, 528353i64, 515632i64, 503000i64, 490469i64,
    478030i64, 465678i64, 453403i64, 441200i64, 429080i64, 417036i64, 405032i64, 393032i64,
    381000i64, 368918i64, 356827i64, 344777i64, 332818i64, 321000i64, 309338i64, 297850i64,
    286594i64, 275624i64, 265000i64, 254763i64, 244890i64, 235334i64, 226053i64, 217000i64,
    208162i64, 199549i64, 191155i64, 182974i64, 175000i64, 167224i64, 159646i64, 152278i64,
    145126i64, 138200i64, 131500i64, 125025i64, 118779i64, 112769i64, 107000i64, 101476i64,
    96189i64, 91123i64, 86265i64, 81600i64, 77121i64, 72826i64, 68710i64, 64770i64,
    61000i64, 57396i64, 53955i64, 50674i64, 47550i64, 44580i64, 41759i64, 39085i64,
    36564i64, 34200i64, 32000i64, 29963i64, 28077i64, 26329i64, 24708i64, 23200i64,
    21801i64, 20501i64, 19281i64, 18121i64, 17000i64, 15904i64, 14837i64, 13811i64,
    12835i64, 11920i64, 11068i64, 10273i64, 9533i64, 8846i64, 8210i64, 7624i64,
    7085i64, 6591i64, 6138i64, 5723i64, 5343i64, 4996i64, 4676i64, 4380i64,
    4102i64, 0i64, 0i64, 0i64, 0i64, 0i64, 0i64, 0i64,
    0i64, 0i64, 0i64, 0i64, 0i64, 0i64, 0i64, 0i64,
    0i64, 0i64, 0i64, 0i64, 0i64, 0i64, 0i64, 0i64,
    0i64, 0i64, 0i64, 0i64, 0i64, 0i64, 0i64, 0i64,
    0i64, 0i64, 0i64, 0i64, 0i64, 0i64, 0i64, 0i64,
    0i64, 0i64, 0i64, 0i64, 0i64, 0i64, 0i64, 0i64,
    0i64, 0i64, 0i64, 0i64, 0i64, 0i64, 0i64, 0i64,
    0i64, 0i64, 0i64, 0i64, 0i64, 0i64, 0i64, 0i64,
    0i64, 0i64, 0i64, 0i64, 0i64, 0i64, 0i64, 0i64,
    0i64, 0i64, 0i64, 0i64, 0i64, 0i64, 0i64, 0i64,
    0i64, 0i64, 0i64, 0i64, 0i64, 0i64, 0i64, 0i64,
    0i64, 0i64, 0i64, 0i64, 0i64, 0i64, 0i64, 0i64,
    0i64, 0i64, 0i64, 0i64, 0i64,
    ]
}

/// The CIE 1931 z-matching function, laid out as [`cie_x_spec`].
pub open spec fn cie_z_spec() -> Seq<i64> {
    seq![
    6450i64, 7083i64, 7745i64, 8501i64, 9415i64, 10550i64, 11966i64, 13656i64,
    15588i64, 17730i64, 20050i64, 22511i64, 25203i64, 28280i64, 31897i64, 36210i64,
    41438i64, 47504i64, 54120i64, 60998i64, 67850i64, 74486i64, 81362i64, 89154i64,
    98540i64, 110200i64, 124613i64, 141702i64, 161304i64, 183257i64, 207400i64, 233692i64,
    262611i64, 294775i64, 330798i64, 371300i64, 416209i64, 465464i64, 519695i64, 579530i64,
    645600i64, 718484i64, 796713i64, 877846i64, 959439i64, 1039050i64, 1115367i64, 1188497i64,
    1258123i64, 1323930i64, 1385600i64, 1442635i64, 1494804i64, 1542190i64, 1584881i64, 1622960i64,
    1656405i64, 1685296i64, 1709874i64, 1730382i64, 1747060i64, 1760045i64, 1769623i64, 1776264i64,
    1780433i64, 1782600i64, 1782968i64, 1781700i64, 1779198i64, 1775867i64, 1772110i64, 1768259i64,
    1764039i64, 1758944i64, 1752466i64, 1744100i64, 1733560i64, 1720858i64, 1705937i64, 1688737i64,
    1669200i64, 1647529i64, 1623413i64, 1596022i64, 1564528i64, 1528100i64, 1486111i64, 1439522i64,
    1389880i64, 1338736i64, 1287640i64, 1237422i64, 1187824i64, 1138761i64, 1090148i64, 1041900i64,
    994198i64, 947347i64, 901453i64, 856619i64, 812950i64, 770517i64, 729445i64, 689914i64,
    652105i64, 616200i64, 582329i64, 550416i64, 520338i64, 491967i64, 465180i64, 439925i64,
    416184i64, 393882i64, 372946i64, 353300i64, 334858i64, 317552i64, 301338i64, 286169i64,
    272000i64, 258817i64, 246484i64, 234772i64, 223453i64, 212300i64, 201169i64, 190120i64,
    179225i64, 168561i64, 158200i64, 148138i64, 138376i64, 128994i64, 120075i64, 111700i64,
    103905i64, 96667i64, 89983i64, 83845i64, 78250i64, 73209i64, 68678i64, 64568i64,
    60788i64, 57250i64, 53904i64, 50747i64, 47753i64, 44899i64, 42160i64, 39507i64,
    36936i64, 34458i64, 32089i64, 29840i64, 27712i64, 25694i64, 23787i64, 21989i64,
    20300i64, 18718i64, 17240i64, 15864i64, 14585i64, 13400i64, 12307i64, 11302i64,
    10378i64, 9529i64, 8750i64, 8035i64, 7382i64, 6785i64, 6243i64, 5750i64,
    5304i64, 4900i64, 4534i64, 4202i64, 3900i64, 3623i64, 3371i64, 3141i64,
    2935i64, 2750i64, 2585i64, 2439i64, 2309i64, 2197i64, 2100i64, 2018i64,
    1948i64, 1890i64, 1841i64, 1800i64, 1766i64, 1738i64, 1711i64, 1683i64,
    1650i64, 1610i64, 1564i64, 1514i64, 1459i64, 1400i64, 1337i64, 1270i64,
    1205i64, 1147i64, 1100i64, 1069i64, 1049i64, 1036i64, 1021i64, 1000i64,
    969i64, 930i64, 887i64, 843i64, 800i64, 761i64, 724i64, 686i64,
    645i64, 600i64, 548i64, 492i64, 435i64, 383i64, 340i64, 307i64,
    283i64, 265i64, 252i64, 240i64, 230i64, 221i64, 212i64, 202i64,
    190i64, 174i64, 156i64, 136i64, 117i64, 100i64, 86i64, 75i64,
    65i64, 57i64, 50i64, 44i64, 39i64, 36i64, 33i64, 30i64,
    28i64, 26i64, 24i64, 22i64, 20i64, 18i64, 16i64, 14i64,
    12i64, 10i64, 8i64, 5i64, 3i64, 1i64, 0i64, 0i64,
    0i64, 0i64, 0i64, 0i64, 0i64, 0i64, 0i64, 0i64,
    0i64, 0i64, 0i64, 0i64, 0i64, 0i64, 0i64, 0i64,
    0i64, 0i64, 0i64, 0i64, 0i64, 0i64, 0i64, 0i64,
    0i64, 0i64, 0i64, 0i64, 0i64, 0i64, 0i64, 0i64,
    0i64, 0i64, 0i64, 0i64, 0i64, 0i64, 0i64, 0i64,
    0i64, 0i64, 0i64, 0i64, 0i64, 0i64, 0i64, 0i64,
    0i64, 0i64, 0i64, 0i64, 0i64, 0i64, 0i64, 0i64,
    0i64, 0i64, 0i64, 0i64, 0i64, 0i64, 0i64, 0i64,
    0i64, 0i64, 0i64, 0i64, 0i64, 0i64, 0i64, 0i64,
    0i64, 0i64, 0i64, 0i64, 0i64, 0i64, 0i64, 0i64,
    0i64, 0i64, 0i64, 0i64, 0i64, 0i64, 0i64, 0i64,
    0i64, 0i64, 0i64, 0i64, 0i64, 0i64, 0i64, 0i64,
    0i64, 0i64, 0i64, 0i64, 0i64, 0i64, 0i64, 0i64,
    0i64, 0i64, 0i64, 0i64, 0i64, 0i64, 0i64, 0i64,
    0i64, 0i64, 0i64, 0i64, 0i64, 0i64, 0i64, 0i64,
    0i64, 0i64, 0i64, 0i64, 0i64, 0i64, 0i64, 0i64,
    0i64, 0i64, 0i64, 0i64, 0i64, 0i64, 0i64, 0i64,
    0i64, 0i64, 0i64, 0i64, 0i64, 0i64, 0i64, 0i64,
    0i64, 0i64, 0i64, 0i64, 0i64,
    ]
}

/// The sRGB transfer curve sampled on the unit range in steps of 1/250:
/// `12.92 v` below the knee, `1.055 v^(1/2.4) - 0.055` above it.
pub open spec fn gamma_table_spec() -> Seq<i64> {
    seq![
    0i64, 50709i64, 86104i64, 112075i64, 133352i64, 151704i64, 168018i64, 182813i64,
    196419i64, 209066i64, 220916i64, 232094i64, 242694i64, 252790i64, 262442i64, 271700i64,
    280604i64, 289190i64, 297485i64, 305516i64, 313304i64, 320868i64, 328225i64, 335389i64,
    342373i64, 349190i64, 355850i64, 362361i64, 368734i64, 374975i64, 381092i64, 387091i64,
    392978i64, 398759i64, 404438i64, 410021i64, 415511i64, 420914i64, 426231i64, 431468i64,
    436627i64, 441711i64, 446724i64, 451667i64, 456544i64, 461356i64, 466107i64, 470797i64,
    475430i64, 480007i64, 484529i64, 488999i64, 493419i64, 497789i64, 502111i64, 506386i64,
    510617i64, 514804i64, 518948i64, 523051i64, 527113i64, 531136i64, 535120i64, 539068i64,
    542979i64, 546854i64, 550695i64, 554502i64, 558276i64, 562018i64, 565728i64, 569408i64,
    573057i64, 576677i64, 580269i64, 583831i64, 587367i64, 590875i64, 594357i64, 597813i64,
    601243i64, 604649i64, 608030i64, 611387i64, 614721i64, 618031i64, 621319i64, 624585i64,
    627829i64, 631051i64, 634253i64, 637433i64, 640594i64, 643734i64, 646855i64, 649956i64,
    653039i64, 656103i64, 659148i64, 662176i64, 665185i64, 668177i64, 671152i64, 674110i64,
    677051i64, 679976i64, 682884i64, 685777i64, 688654i64, 691515i64, 694361i64, 697192i64,
    700008i64, 702810i64, 705597i64, 708370i64, 711128i64, 713874i64, 716605i64, 719323i64,
    722027i64, 724719i64, 727397i64, 730063i64, 732716i64, 735357i64, 737985i64, 740602i64,
    743206i64, 745798i64, 748379i64, 750948i64, 753506i64, 756053i64, 758588i64, 761112i64,
    763626i64, 766128i64, 768620i64, 771102i64, 773573i64, 776034i64, 778485i64, 780925i64,
    783356i64, 785777i64, 788188i64, 790590i64, 792982i64, 795364i64, 797738i64, 800102i64,
    802457i64, 804803i64, 807140i64, 809468i64, 811788i64, 814098i64, 816401i64, 818694i64,
    820980i64, 823257i64, 825526i64, 827786i64, 830039i64, 832284i64, 834520i64, 836749i64,
    838970i64, 841183i64, 843389i64, 845587i64, 847778i64, 849961i64, 852137i64, 854306i64,
    856467i64, 858622i64, 860769i64, 862909i64, 865042i64, 867168i64, 869288i64, 871400i64,
    873506i64, 875606i64, 877698i64, 879784i64, 881864i64, 883937i64, 886004i64, 888064i64,
    890119i64, 892167i64, 894208i64, 896244i64, 898273i64, 900297i64, 902314i64, 904326i64,
    906332i64, 908332i64, 910326i64, 912314i64, 914297i64, 916274i64, 918245i64, 920211i64,
    922171i64, 924126i64, 926075i64, 928019i64, 929957i64, 931890i64, 933818i64, 935741i64,
    937658i64, 939571i64, 941478i64, 943380i64, 945277i64, 947169i64, 949056i64, 950938i64,
    952815i64, 954687i64, 956555i64, 958417i64, 960275i64, 962128i64, 963976i64, 965820i64,
    967659i64, 969493i64, 971323i64, 973148i64, 974969i64, 976785i64, 978597i64, 980404i64,
    982207i64, 984006i64, 985800i64, 987590i64, 989375i64, 991157i64, 992934i64, 994706i64,
    996475i64, 998240i64, 1000000i64,
    ]
}

/// The CIE matching-function tables and the sRGB transfer-curve table.
pub struct CieTables {
    pub xbar: Vec<i64>,
    pub ybar: Vec<i64>,
    pub zbar: Vec<i64>,
    pub gamma: Vec<i64>,
}

impl CieTables {
    /// Every table has its full length.
    pub open spec fn wf(self) -> bool {
        &&& self.xbar@ == cie_x_spec()
        &&& self.ybar@ == cie_y_spec()
        &&& self.zbar@ == cie_z_spec()
        &&& self.gamma@ == gamma_table_spec()
        &&& self.xbar@.len() == CIE_SAMPLES
        &&& self.ybar@.len() == CIE_SAMPLES
        &&& self.zbar@.len() == CIE_SAMPLES
        &&& self.gamma@.len() == GAMMA_SAMPLES
    }

    /// Builds the tables; their contents are pinned to the spec-level
    /// tables, entry for entry.
    pub fn load() -> (r: CieTables)
        ensures
            r.wf(),
    {
        let xbar: Vec<i64> = vec![
            1368, 1502, 1642, 1802, 1996, 2236, 2535, 2893,
            3301, 3753, 4243, 4762, 5330, 5979, 6741, 7650,
            8751, 10029, 11422, 12869, 14310, 15704, 17147, 18781,
            20748, 23190, 26207, 29782, 33881, 38468, 43510, 48996,
            55023, 61719, 69212, 77630, 86958, 97177, 108406, 120767,
            134380, 149358, 165396, 181983, 198611, 214770, 230187, 244880,
            258777, 271808, 283900, 294944, 304896, 313787, 321645, 328500,
            334351, 339210, 343121, 346130, 348280, 349600, 350147, 350013,
            349287, 348060, 346373, 344262, 341809, 339094, 336200, 333198,
            330041, 326636, 322887, 318700, 314025, 308884, 303290, 297258,
            290800, 283970, 276721, 268918, 260423, 251100, 240848, 229851,
            218407, 206812, 195360, 184214, 173327, 162688, 152283, 142100,
            132179, 122570, 113275, 104298, 95640, 87300, 79308, 71718,
            64581, 57950, 51862, 46282, 41151, 36413, 32010, 27917,
            24144, 20687, 17540, 14700, 12162, 9920, 7967, 6296,
            4900, 3777, 2945, 2425, 2236, 2400, 2926, 3837,
            5175, 6982, 9300, 12149, 15536, 19478, 23993, 29100,
            34815, 41120, 47985, 55379, 63270, 71635, 80462, 89740,
            99456, 109600, 120167, 131114, 142368, 153854, 165500, 177257,
            189140, 201169, 213366, 225750, 238321, 251067, 263992, 277102,
            290400, 303891, 317573, 331438, 345483, 359700, 374084, 388640,
            403378, 418312, 433450, 448795, 464336, 480064, 495971, 512050,
            528296, 544692, 561209, 577822, 594500, 611221, 627976, 644760,
            661570, 678400, 695239, 712059, 728828, 745519, 762100, 778543,
            794826, 810926, 826825, 842500, 857932, 873082, 887894, 902318,
            916300, 929800, 942798, 955278, 967218, 978600, 989386, 999549,
            1009089, 1018006, 1026300, 1033983, 1040986, 1047188, 1052467, 1056700,
            1059794, 1061799, 1062807, 1062910, 1062200, 1060735, 1058444, 1055224,
            1050977, 1045600, 1039037, 1031361, 1022666, 1013048, 1002600, 991368,
            979331, 966492, 952848, 938400, 923194, 907244, 890502, 872920,
            854450, 835084, 814946, 794186, 772954, 751400, 729584, 707589,
            685602, 663810, 642400, 621515, 601114, 581105, 561398, 541900,
            522600, 503546, 484744, 466194, 447900, 429861, 412098, 394644,
            377533, 360800, 344456, 328517, 313019, 298001, 283500, 269545,
            256118, 243190, 230727, 218700, 207097, 195923, 185171, 174832,
            164900, 155367, 146230, 137490, 129147, 121200, 113640, 106465,
            99690, 93331, 87400, 81901, 76804, 72077, 67687, 63600,
            59807, 56282, 52971, 49819, 46770, 43784, 40875, 38073,
            35405, 32900, 30564, 28381, 26345, 24453, 22700, 21084,
            19600, 18237, 16987, 15840, 14791, 13831, 12949, 12129,
            11359, 0, 0, 0, 0, 0, 0, 0,
            0, 0, 0, 0, 0, 0, 0, 0,
            0, 0, 0, 0, 0, 0, 0, 0,
            0, 0, 0, 0, 0, 0, 0, 0,
            0, 0, 0, 0, 0, 0, 0, 0,
            0, 0, 0, 0, 0, 0, 0, 0,
            0, 0, 0, 0, 0, 0, 0, 0,
            0, 0, 0, 0, 0, 0, 0, 0,
            0, 0, 0, 0, 0, 0, 0, 0,
            0, 0, 0, 0, 0, 0, 0, 0,
            0, 0, 0, 0, 0, 0, 0, 0,
            0, 0, 0, 0, 0, 0, 0, 0,
            0, 0, 0, 0, 0,
        ];
        let ybar: Vec<i64> = vec![
            39, 43, 47, 52, 57, 64, 72, 82,
            94, 106, 120, 135, 151, 170, 192, 217,
            247, 281, 319, 357, 396, 434, 473, 518,
            572, 640, 725, 826, 941, 1070, 1210, 1362,
            1531, 1720, 1935, 2180, 2455, 2764, 3118, 3526,
            4000, 4546, 5159, 5829, 6546, 7300, 8087, 8909,
            9768, 10664, 11600, 12573, 13583, 14630, 15715, 16840,
            18007, 19214, 20454, 21718, 23000, 24295, 25610, 26959,
            28351, 29800, 31311, 32884, 34521, 36226, 38000, 39847,
            41768, 43766, 45843, 48000, 50244, 52573, 54981, 57459,
            60000, 62602, 65278, 68042, 70911, 73900, 77016, 80266,
            83667, 87233, 90980, 94918, 99046, 103367, 107885, 112600,
            117532, 122674, 127993, 133453, 139020, 144676, 150469, 156462,
            162718, 169300, 176243, 183558, 191274, 199418, 208020, 217120,
            226734, 236857, 247481, 258600, 270185, 282294, 295050, 308578,
            323000, 338402, 354686, 371699, 389288, 407300, 425630, 444310,
            463394, 482940, 503000, 523569, 544512, 565690, 586965, 608200,
            629346, 650307, 670875, 690842, 710000, 728185, 745464, 761969,
            777837, 793200, 808110, 822496, 836307, 849492, 862000, 873811,
            884962, 895494, 905443, 914850, 923735, 932092, 939923, 947225,
            954000, 960256, 966007, 971261, 976022, 980300, 984092, 987481,
            990313, 992812, 994950, 996711, 998098, 999112, 999748, 1000000,
            999857, 999305, 998326, 996899, 995000, 992600, 989743, 986444,
            982724, 978600, 974084, 969171, 963857, 958135, 952000, 945450,
            938499, 931163, 923458, 915400, 907006, 898277, 889205, 879782,
            870000, 859861, 849392, 838622, 827581, 816300, 804795, 793082,
            781192, 769155, 757000, 744754, 732422, 720004, 707496, 694900,
            682219, 669472, 656674, 643845, 631000, 618156, 605314, 592476,
            579638, 566800, 553961, 541137, 528353, 515632, 503000, 490469,
            478030, 465678, 453403, 441200, 429080, 417036, 405032, 393032,
            381000, 368918, 356827, 344777, 332818, 321000, 309338, 297850,
            286594, 275624, 265000, 254763, 244890, 235334, 226053, 217000,
            208162, 199549, 191155, 182974, 175000, 167224, 159646, 152278,
            145126, 138200, 131500, 125025, 118779, 112769, 107000, 101476,
            96189, 91123, 86265, 81600, 77121, 72826, 68710, 64770,
            61000, 57396, 53955, 50674, 47550, 44580, 41759, 39085,
            36564, 34200, 32000, 29963, 28077, 26329, 24708, 23200,
            21801, 20501, 19281, 18121, 17000, 15904, 14837, 13811,
            12835, 11920, 11068, 10273, 9533, 8846, 8210, 7624,
            7085, 6591, 6138, 5723, 5343, 4996, 4676, 4380,
            4102, 0, 0, 0, 0, 0, 0, 0,
            0, 0, 0, 0, 0, 0, 0, 0,
            0, 0, 0, 0, 0, 0, 0, 0,
            0, 0, 0, 0, 0, 0, 0, 0,
            0, 0, 0, 0, 0, 0, 0, 0,
            0, 0, 0, 0, 0, 0, 0, 0,
            0, 0, 0, 0, 0, 0, 0, 0,
            0, 0, 0, 0, 0, 0, 0, 0,
            0, 0, 0, 0, 0, 0, 0, 0,
            0, 0, 0, 0, 0, 0, 0, 0,
            0, 0, 0, 0, 0, 0, 0, 0,
            0, 0, 0, 0, 0, 0, 0, 0,
            0, 0, 0, 0, 0,
        ];
        let zbar: Vec<i64> = vec![
            6450, 7083, 7745, 8501, 9415, 10550, 11966, 13656,
            15588, 17730, 20050, 22511, 25203, 28280, 31897, 36210,
            41438, 47504, 54120, 60998, 67850, 74486, 81362, 89154,
            98540, 110200, 124613, 141702, 161304, 183257, 207400, 233692,
            262611, 294775, 330798, 371300, 416209, 465464, 519695, 579530,
            645600, 718484, 796713, 877846, 959439, 1039050, 1115367, 1188497,
            1258123, 1323930, 1385600, 1442635, 1494804, 1542190, 1584881, 1622960,
            1656405, 1685296, 1709874, 1730382, 1747060, 1760045, 1769623, 1776264,
            1780433, 1782600, 1782968, 1781700, 1779198, 1775867, 1772110, 1768259,
            1764039, 1758944, 1752466, 1744100, 1733560, 1720858, 1705937, 1688737,
            1669200, 1647529, 1623413, 1596022, 1564528, 1528100, 1486111, 1439522,
            1389880, 1338736, 1287640, 1237422, 1187824, 1138761, 1090148, 1041900,
            994198, 947347, 901453, 856619, 812950, 770517, 729445, 689914,
            652105, 616200, 582329, 550416, 520338, 491967, 465180, 439925,
            416184, 393882, 372946, 353300, 334858, 317552, 301338, 286169,
            272000, 258817, 246484, 234772, 223453, 212300, 201169, 190120,
            179225, 168561, 158200, 148138, 138376, 128994, 120075, 111700,
            103905, 96667, 89983, 83845, 78250, 73209, 68678, 64568,
            60788, 57250, 53904, 50747, 47753, 44899, 42160, 39507,
            36936, 34458, 32089, 29840, 27712, 25694, 23787, 21989,
            20300, 18718, 17240, 15864, 14585, 13400, 12307, 11302,
            10378, 9529, 8750, 8035, 7382, 6785, 6243, 5750,
            5304, 4900, 4534, 4202, 3900, 3623, 3371, 3141,
            2935, 2750, 2585, 2439, 2309, 2197, 2100, 2018,
            1948, 1890, 1841, 1800, 1766, 1738, 1711, 1683,
            1650, 1610, 1564, 1514, 1459, 1400, 1337, 1270,
            1205, 1147, 1100, 1069, 1049, 1036, 1021, 1000,
            969, 930, 887, 843, 800, 761, 724, 686,
            645, 600, 548, 492, 435, 383, 340, 307,
            283, 265, 252, 240, 230, 221, 212, 202,
            190, 174, 156, 136, 117, 100, 86, 75,
            65, 57, 50, 44, 39, 36, 33, 30,
            28, 26, 24, 22, 20, 18, 16, 14,
            12, 10, 8, 5, 3, 1, 0, 0,
            0, 0, 0, 0, 0, 0, 0, 0,
            0, 0, 0, 0, 0, 0, 0, 0,
            0, 0, 0, 0, 0, 0, 0, 0,
            0, 0, 0, 0, 0, 0, 0, 0,
            0, 0, 0, 0, 0, 0, 0, 0,
            0, 0, 0, 0, 0, 0, 0, 0,
            0, 0, 0, 0, 0, 0, 0, 0,
            0, 0, 0, 0, 0, 0, 0, 0,
            0, 0, 0, 0, 0, 0, 0, 0,
            0, 0, 0, 0, 0, 0, 0, 0,
            0, 0, 0, 0, 0, 0, 0, 0,
            0, 0, 0, 0, 0, 0, 0, 0,
            0, 0, 0, 0, 0, 0, 0, 0,
            0, 0, 0, 0, 0, 0, 0, 0,
            0, 0, 0, 0, 0, 0, 0, 0,
            0, 0, 0, 0, 0, 0, 0, 0,
            0, 0, 0, 0, 0, 0, 0, 0,
            0, 0, 0, 0, 0, 0, 0, 0,
            0, 0, 0, 0, 0,
        ];
        let gamma: Vec<i64> = vec![
            0, 50709, 86104, 112075, 133352, 151704, 168018, 182813,
            196419, 209066, 220916, 232094, 242694, 252790, 262442, 271700,
            280604, 289190, 297485, 305516, 313304, 320868, 328225, 335389,
            342373, 349190, 355850, 362361, 368734, 374975, 381092, 387091,
            392978, 398759, 404438, 410021, 415511, 420914, 426231, 431468,
            436627, 441711, 446724, 451667, 456544, 461356, 466107, 470797,
            475430, 480007, 484529, 488999, 493419, 497789, 502111, 506386,
            510617, 514804, 518948, 523051, 527113, 531136, 535120, 539068,
            542979, 546854, 550695, 554502, 558276, 562018, 565728, 569408,
            573057, 576677, 580269, 583831, 587367, 590875, 594357, 597813,
            601243, 604649, 608030, 611387, 614721, 618031, 621319, 624585,
            627829, 631051, 634253, 637433, 640594, 643734, 646855, 649956,
            653039, 656103, 659148, 662176, 665185, 668177, 671152, 674110,
            677051, 679976, 682884, 685777, 688654, 691515, 694361, 697192,
            700008, 702810, 705597, 708370, 711128, 713874, 716605, 719323,
            722027, 724719, 727397, 730063, 732716, 735357, 737985, 740602,
            743206, 745798, 748379, 750948, 753506, 756053, 758588, 761112,
            763626, 766128, 768620, 771102, 773573, 776034, 778485, 780925,
            783356, 785777, 788188, 790590, 792982, 795364, 797738, 800102,
            802457, 804803, 807140, 809468, 811788, 814098, 816401, 818694,
            820980, 823257, 825526, 827786, 830039, 832284, 834520, 836749,
            838970, 841183, 843389, 845587, 847778, 849961, 852137, 854306,
            856467, 858622, 860769, 862909, 865042, 867168, 869288, 871400,
            873506, 875606, 877698, 879784, 881864, 883937, 886004, 888064,
            890119, 892167, 894208, 896244, 898273, 900297, 902314, 904326,
            906332, 908332, 910326, 912314, 914297, 916274, 918245, 920211,
            922171, 924126, 926075, 928019, 929957, 931890, 933818, 935741,
            937658, 939571, 941478, 943380, 945277, 947169, 949056, 950938,
            952815, 954687, 956555, 958417, 960275, 962128, 963976, 965820,
            967659, 969493, 971323, 973148, 974969, 976785, 978597, 980404,
            982207, 984006, 985800, 987590, 989375, 991157, 992934, 994706,
            996475, 998240, 1000000,
        ];
        proof {
            assert(xbar@ =~= cie_x_spec());
            assert(ybar@ =~= cie_y_spec());
            assert(zbar@ =~= cie_z_spec());
            assert(gamma@ =~= gamma_table_spec());
        }
        CieTables { xbar, ybar, zbar, gamma }
    }
}


/// The matching functions at the edges of the tabulated range: the
/// published CIE 1931 values at 380 nm and at 700 nm, beyond which the
/// tables are zero-padded. Together with [`Xyz::from_wavelength`]'s
/// contract this pins the response at both table edges.
pub proof fn lemma_cie_table_edges()
    ensures
        cie_x_spec()[0] == 1368,
        cie_y_spec()[0] == 39,
        cie_z_spec()[0] == 6450,
        cie_x_spec()[320] == 11359,
        cie_y_spec()[320] == 4102,
        cie_z_spec()[320] == 0,
        gamma_table_spec()[0] == 0,
        gamma_table_spec()[250] == 1_000_000,
{
}

/// The table index of a wavelength given in raw nm.
pub open spec fn cie_index_spec(lam: int) -> int {
    lam / 1_000_000 - 380
}

/// A CIE 1931 tristimulus value.
#[derive(Clone, Copy, Debug, PartialEq, Eq, Structural)]
pub struct Xyz {
    pub x: Fx,
    pub y: Fx,
    pub z: Fx,
}

impl Xyz {
    /// Builds a tristimulus value.
    pub fn new(x: Fx, y: Fx, z: Fx) -> (r: Xyz)
        ensures
            r.x == x && r.y == y && r.z == z,
    {
        Xyz { x, y, z }
    }

    /// The zero tristimulus value.
    pub fn zero() -> (r: Xyz)
        ensures
            r.x@ == 0 && r.y@ == 0 && r.z@ == 0,
    {
        Xyz { x: Fx::zero(), y: Fx::zero(), z: Fx::zero() }
    }

    /// The tristimulus response to a radiance `value` at a wavelength in
    /// raw nm: the matching functions at the wavelength's table entry,
    /// each scaled by the value.
    pub fn from_wavelength(tables: &CieTables, lambda: Fx, value: Fx) -> (r: Xyz)
        requires
            tables.wf(),
            LAMBDA_MIN_RAW <= lambda@ < LAMBDA_MAX_RAW,
        ensures
            r.x@ == fx_mul(tables.xbar@[cie_index_spec(lambda@)] as int, value@),
            r.y@ == fx_mul(tables.ybar@[cie_index_spec(lambda@)] as int, value@),
            r.z@ == fx_mul(tables.zbar@[cie_index_spec(lambda@)] as int, value@),
    {
        let nm: u64 = (lambda.raw as u64) / 1_000_000u64;
        proof {
            vstd::arithmetic::div_mod::lemma_div_is_ordered(
                380_000_000int,
                lambda.raw as int,
                1_000_000int,
            );
            vstd::arithmetic::div_mod::lemma_div_is_ordered(
                lambda.raw as int,
                719_999_999int,
                1_000_000int,
            );
        }
        let idx: usize = (nm - 380) as usize;
        Xyz {
            x: Fx::new(tables.xbar[idx]).mul(value),
            y: Fx::new(tables.ybar[idx]).mul(value),
            z: Fx::new(tables.zbar[idx]).mul(value),
        }
    }

    /// Componentwise sum.
    pub fn add(self, o: Xyz) -> (r: Xyz)
        ensures
            r.x@ == fx_add(self.x@, o.x@),
            r.y@ == fx_add(self.y@, o.y@),
            r.z@ == fx_add(self.z@, o.z@),
    {
        Xyz { x: self.x.add(o.x), y: self.y.add(o.y), z: self.z.add(o.z) }
    }

    /// Componentwise scaling.
    pub fn scale(self, s: Fx) -> (r: Xyz)
        ensures
            r.x@ == fx_mul(self.x@, s@),
            r.y@ == fx_mul(self.y@, s@),
            r.z@ == fx_mul(self.z@, s@),
    {
        Xyz { x: self.x.mul(s), y: self.y.mul(s), z: self.z.mul(s) }
    }

    /// Componentwise division by a scalar.
    pub fn div_scalar(self, s: Fx) -> (r: Xyz)
        ensures
            r.x@ == fx_div(self.x@, s@),
            r.y@ == fx_div(self.y@, s@),
            r.z@ == fx_div(self.z@, s@),
    {
        Xyz { x: self.x.div(s), y: self.y.div(s), z: self.z.div(s) }
    }

    /// Converts to display sRGB: the standard linear matrix, then the tone
    /// map and the transfer curve on each channel.
    pub fn to_srgb(self, tables: &CieTables) -> (r: Srgb)
        requires
            tables.wf(),
        ensures
            r.r@ == srgb_byte_scale_spec(
                srgb_channel_spec(tables.gamma@, tonemap_spec(linear_r_spec(self))),
            ),
            r.g@ == srgb_byte_scale_spec(
                srgb_channel_spec(tables.gamma@, tonemap_spec(linear_g_spec(self))),
            ),
            r.b@ == srgb_byte_scale_spec(
                srgb_channel_spec(tables.gamma@, tonemap_spec(linear_b_spec(self))),
            ),
    {
        let lr = Fx::new(3_240_479).mul(self.x).sub(Fx::new(1_537_150).mul(self.y)).sub(
            Fx::new(498_535).mul(self.z),
        );
        let lg = Fx::new(1_875_991).mul(self.y).add(Fx::new(41_556).mul(self.z)).sub(
            Fx::new(969_256).mul(self.x),
        );
        let lb = Fx::new(55_648).mul(self.x).sub(Fx::new(204_043).mul(self.y)).add(
            Fx::new(1_057_311).mul(self.z),
        );
        Srgb::new(
            gamma_correct(tables, tonemap(lr)),
            gamma_correct(tables, tonemap(lg)),
            gamma_correct(tables, tonemap(lb)),
        )
    }
}

/// The linear red channel of a tristimulus value.
pub open spec fn linear_r_spec(c: Xyz) -> int {
    fx_sub(
        fx_sub(fx_mul(3_240_479, c.x@), fx_mul(1_537_150, c.y@)),
        fx_mul(498_535, c.z@),
    )
}

/// The linear green channel of a tristimulus value.
pub open spec fn linear_g_spec(c: Xyz) -> int {
    fx_sub(
        fx_add(fx_mul(1_875_991, c.y@), fx_mul(41_556, c.z@)),
        fx_mul(969_256, c.x@),
    )
}

/// The linear blue channel of a tristimulus value.
pub open spec fn linear_b_spec(c: Xyz) -> int {
    fx_add(
        fx_sub(fx_mul(55_648, c.x@), fx_mul(204_043, c.y@)),
        fx_mul(1_057_311, c.z@),
    )
}

/// The range-compressing tone map `v / (1 + |v|)`, exact on raw values.
pub open spec fn tonemap_spec(v: int) -> int {
    fx_div(v, fx_add(SCALE as int, clip(iabs(v))))
}

/// Compresses a radiance channel into `[-1, 1]`.
pub fn tonemap(v: Fx) -> (r: Fx)
    requires
        crate::fixed::RAW_MIN as int <= v@,
    ensures
        r@ == tonemap_spec(v@),
        -(SCALE as int) <= r@ <= SCALE as int,
{
    let r = v.div(Fx::one().add(v.abs()));
    proof {
        let va = iabs(v@);
        let den = fx_add(SCALE as int, clip(va));
        assert(den >= SCALE as int);
        assert(0 <= va <= den);
        if v@ != 0 {
            vstd::arithmetic::mul::lemma_mul_inequality(va, den, SCALE as int);
            vstd::arithmetic::div_mod::lemma_div_is_ordered(
                va * (SCALE as int),
                den * (SCALE as int),
                den,
            );
            vstd::arithmetic::div_mod::lemma_div_multiples_vanish(SCALE as int, den);
            vstd::arithmetic::div_mod::lemma_div_pos_is_pos(va * (SCALE as int), den);
            assert(0 <= va * (SCALE as int)) by (nonlinear_arith)
                requires
                    va >= 0,
            ;
        }
    }
    r
}

/// The sRGB transfer curve on a tone-mapped channel: the linear segment
/// below the standard knee, and above it a linear interpolation of the
/// power-segment table.
pub open spec fn srgb_channel_spec(gamma: Seq<i64>, v: int) -> int {
    if v <= 3130 {
        fx_mul(v, 12_920_000)
    } else {
        let k0 = v / (GAMMA_STEP_RAW as int);
        let k = if k0 > 249 {
            249int
        } else {
            k0
        };
        let frac = v - k * (GAMMA_STEP_RAW as int);
        let a = gamma[k] as int;
        let b = gamma[k + 1] as int;
        fx_add(a, fx_mul(fx_sub(b, a), fx_div(frac, GAMMA_STEP_RAW as int)))
    }
}

/// Applies the sRGB transfer curve to a tone-mapped channel.
pub fn gamma_correct(tables: &CieTables, v: Fx) -> (r: Fx)
    requires
        tables.wf(),
        -(SCALE as int) <= v@ <= SCALE as int,
    ensures
        r@ == srgb_channel_spec(tables.gamma@, v@),
{
    if v.raw <= 3130 {
        v.mul(Fx::new(12_920_000))
    } else {
        let vr: u64 = v.raw as u64;
        let k0: u64 = vr / (GAMMA_STEP_RAW as u64);
        let k: u64 = if k0 > 249 {
            249
        } else {
            k0
        };
        proof {
            vstd::arithmetic::div_mod::lemma_div_is_ordered(
                v.raw as int,
                1_000_000int,
                GAMMA_STEP_RAW as int,
            );
            vstd::arithmetic::div_mod::lemma_fundamental_div_mod(
                v.raw as int,
                GAMMA_STEP_RAW as int,
            );
        }
        let frac: u64 = vr - k * (GAMMA_STEP_RAW as u64);
        let a = Fx::new(tables.gamma[k as usize]);
        let b = Fx::new(tables.gamma[(k + 1) as usize]);
        a.add(b.sub(a).mul(Fx::new(frac as i64).div(Fx::new(GAMMA_STEP_RAW))))
    }
}

/// A display color, each channel in `[0, 255.99]` fixed point.
#[derive(Clone, Copy, Debug, PartialEq, Eq, Structural)]
pub struct Srgb {
    pub r: Fx,
    pub g: Fx,
    pub b: Fx,
}

/// A unit channel scaled to the byte range and clamped.
pub open spec fn srgb_byte_scale_spec(v: int) -> int {
    let s = fx_mul(v, 255_990_000);
    if s < 0 {
        0
    } else if s > 255_990_000 {
        255_990_000
    } else {
        s
    }
}

impl Srgb {
    /// Scales unit channels to the byte range, clamped.
    pub fn new(r: Fx, g: Fx, b: Fx) -> (s: Srgb)
        ensures
            s.r@ == srgb_byte_scale_spec(r@),
            s.g@ == srgb_byte_scale_spec(g@),
            s.b@ == srgb_byte_scale_spec(b@),
    {
        let lo = Fx::zero();
        let hi = Fx::new(255_990_000);
        Srgb {
            r: r.mul(hi).clamp(lo, hi),
            g: g.mul(hi).clamp(lo, hi),
            b: b.mul(hi).clamp(lo, hi),
        }
    }

    /// The packed `0RGB` pixel.
    pub fn to_u32(&self) -> (r: u32)
        requires
            0 <= self.r@ <= 255_990_000,
            0 <= self.g@ <= 255_990_000,
            0 <= self.b@ <= 255_990_000,
        ensures
            r == (self.r@ / 1_000_000) * 65536 + (self.g@ / 1_000_000) * 256 + self.b@ / 1_000_000,
    {
        let ru: u64 = (self.r.raw as u64) / 1_000_000u64;
        let gu: u64 = (self.g.raw as u64) / 1_000_000u64;
        let bu: u64 = (self.b.raw as u64) / 1_000_000u64;
        proof {
            vstd::arithmetic::div_mod::lemma_div_is_ordered(
                self.r.raw as int,
                255_990_000int,
                1_000_000int,
            );
            vstd::arithmetic::div_mod::lemma_div_is_ordered(
                self.g.raw as int,
                255_990_000int,
                1_000_000int,
            );
            vstd::arithmetic::div_mod::lemma_div_is_ordered(
                self.b.raw as int,
                255_990_000int,
                1_000_000int,
            );
        }
        (ru as u32) * 65536 + (gu as u32) * 256 + (bu as u32)
    }

    /// The three channel bytes.
    pub fn to_bytes(&self) -> (r: (u8, u8, u8))
        requires
            0 <= self.r@ <= 255_990_000,
            0 <= self.g@ <= 255_990_000,
            0 <= self.b@ <= 255_990_000,
        ensures
            r.0 == self.r@ / 1_000_000,
            r.1 == self.g@ / 1_000_000,
            r.2 == self.b@ / 1_000_000,
    {
        let ru: u64 = (self.r.raw as u64) / 1_000_000u64;
        let gu: u64 = (self.g.raw as u64) / 1_000_000u64;
        let bu: u64 = (self.b.raw as u64) / 1_000_000u64;
        proof {
            vstd::arithmetic::div_mod::lemma_div_is_ordered(
                self.r.raw as int,
                255_990_000int,
                1_000_000int,
            );
            vstd::arithmetic::div_mod::lemma_div_is_ordered(
                self.g.raw as int,
                255_990_000int,
                1_000_000int,
            );
            vstd::arithmetic::div_mod::lemma_div_is_ordered(
                self.b.raw as int,
                255_990_000int,
                1_000_000int,
            );
        }
        (ru as u8, gu as u8, bu as u8)
    }
}

} // verus!
