use civil::calc::calculus as tanh_sinh;
use civil::units::calculus as gauss_legendre;

const TANH_SINH_WEIGHTS: [f64; 409] = [
    2.412423038430878e-15, 4.289196222067919e-15, 7.556721775780599e-15, 1.3194342231967934e-14,
    2.283492670261385e-14, 3.917679450601626e-14, 6.663992283308776e-14, 1.1240208959922889e-13,
    1.8802071730750654e-13, 3.1194977286848145e-13, 5.134127524501447e-13, 8.383128960502627e-13,
    1.3581784274539059e-12, 2.183592209923368e-12, 3.484193767026112e-12, 5.5182369468174856e-12,
    8.675931414979638e-12, 1.3542512912336309e-11, 2.09893354045114e-11, 3.2304464333252424e-11,
    4.937853877663184e-11, 7.496739757381804e-11, 1.1306055347494672e-10, 1.6939457789411684e-10,
    2.5216347918530193e-10, 3.7299501843052736e-10, 5.4828357797095e-10, 8.009978447972987e-10,
    1.163116581425581e-09, 1.6788897682161947e-09, 2.4091773256476002e-09, 3.437185674465006e-09,
    4.8760060974240764e-09, 6.878461095589907e-09, 9.649888896108964e-09, 1.346464552230203e-08,
    1.8687282268736427e-08, 2.5799568229535887e-08, 3.5434777171421937e-08, 4.842095019807234e-08,
    6.583518512718343e-08, 8.90713951402423e-08, 1.199244278290279e-07, 1.6069394579076212e-07,
    2.1431204556943013e-07, 2.844992365915972e-07, 3.7595411862360666e-07, 4.945828870275441e-07,
    6.477756603592981e-07, 8.447375638485988e-07, 1.0968835125901286e-06, 1.4183067155493914e-06,
    1.8263320593710639e-06, 2.34216672085281e-06, 2.9916615878138832e-06, 3.8061983264645003e-06,
    4.823718203261542e-06, 6.089910032094918e-06, 7.659575852520328e-06, 9.598194128378481e-06,
    1.1983701363170751e-05, 1.4908514031870627e-05, 1.8481813599879184e-05, 2.283211810903611e-05,
    2.8110164327940182e-05, 3.449212475934322e-05, 4.2183183841757605e-05, 5.142149744765882e-05,
    6.248255924074409e-05, 7.568399658620161e-05, 9.139081749071025e-05, 0.00011002112846666715,
    0.00013205234125609997, 0.00015802788400701202, 0.0001885644297670032, 0.0002243596520500854,
    0.00026620051375271666, 0.00031497209186021226, 0.0003716669362167776, 0.00043739495615911745,
    0.0005133938240679038, 0.0006010398799114749, 0.0007018595156842427, 0.0008175410133246952,
    0.0009499468042834704, 0.0011011261134519384, 0.0012733279447082377, 0.00146901435994298,
    0.00169087399814264, 0.0019418357759843675, 0.0022250827064786392, 0.0025440657675291738,
    0.002902517747901318, 0.0033044669940348295, 0.0037542509774318358, 0.004256529599017867,
    0.004816298143928466, 0.005438899797624003, 0.006130037632083031, 0.006895785969066004,
    0.00774260102606425, 0.008677330749539176, 0.009707223739391702, 0.010839937168255898,
    0.012083543599157955, 0.013446536605285723, 0.014937835096050144, 0.01656678625424759,
    0.01834316698992783, 0.020277183817500103, 0.022379471063648494, 0.024661087314753284,
    0.027133510013711983, 0.029808628117310155, 0.03269873272660908, 0.03581650560419643,
    0.039175005493600784, 0.0427876521577257, 0.046668208054846595, 0.050830757572570474,
    0.055289683742240595, 0.060059642358636346, 0.0651555334325362, 0.07059246990686702,
    0.07638574357083236, 0.08255078811070175, 0.08910313924094157, 0.09605839186518943,
    0.10343215422333296, 0.11123999898874452, 0.11949741128869594, 0.12821973363120104,
    0.1374221077331678, 0.14711941325785702, 0.15732620348436618, 0.16805663794826917,
    0.17932441211072836, 0.19114268413342744, 0.2035239988586017, 0.21648020911729615,
    0.23002239451478873, 0.24416077786983983, 0.25890463951405346, 0.27426222968906827,
    0.29024067931245423, 0.306845909417917, 0.32408253961152894, 0.341953795923017,
    0.3604614184693437, 0.3796055693866516, 0.3993847415257171, 0.41979566844501565,
    0.44083323627385823, 0.4624903980553677, 0.48475809121475555, 0.5076251588319083,
    0.5310782754280542, 0.5551018780036335, 0.5796781030877877, 0.6047867305784036,
    0.6304051351647438, 0.6565082461316277, 0.6830685163442638, 0.7100559012054691,
    0.737437848361548, 0.7651792989089561, 0.7932427008205167, 0.8215880352669649,
    0.8501728564566204, 0.8789523455527821, 0.907879379154895, 0.9369046127456684,
    0.9659765794123008, 0.995041804046133, 1.0240449331118116, 1.0529288799552667,
    1.0816349854900704, 1.1101031939653405, 1.1382722433763053, 1.1660798699324344,
    1.193463025849157, 1.220358109579358, 1.2467012074518573, 1.2724283455378622,
    1.297475750424978, 1.3217801174437729, 1.3452788847662513, 1.3679105116808963,
    1.389614759247256, 1.410332971446259, 1.4300083548723, 1.4485862549613222,
    1.4660144267169655, 1.482243297885538, 1.497226222541036, 1.5109197230741696,
    1.5232837186347052, 1.5342817381543035, 1.543881116176959, 1.552053169845412,
    1.5587733555333303, 1.5640214037732323, 1.5677814313072216, 1.5700420292795931,
    1.5707963267948966, 1.5700420292795931, 1.5677814313072216, 1.5640214037732323,
    1.5587733555333303, 1.552053169845412, 1.543881116176959, 1.5342817381543035,
    1.5232837186347052, 1.5109197230741696, 1.497226222541036, 1.482243297885538,
    1.4660144267169655, 1.4485862549613222, 1.4300083548723, 1.410332971446259,
    1.389614759247256, 1.3679105116808963, 1.3452788847662513, 1.3217801174437729,
    1.297475750424978, 1.2724283455378622, 1.2467012074518573, 1.220358109579358,
    1.193463025849157, 1.1660798699324344, 1.1382722433763053, 1.1101031939653405,
    1.0816349854900704, 1.0529288799552667, 1.0240449331118116, 0.995041804046133,
    0.9659765794123008, 0.9369046127456684, 0.907879379154895, 0.8789523455527821,
    0.8501728564566204, 0.8215880352669649, 0.7932427008205167, 0.7651792989089561,
    0.737437848361548, 0.7100559012054691, 0.6830685163442638, 0.6565082461316277,
    0.6304051351647438, 0.6047867305784036, 0.5796781030877877, 0.5551018780036335,
    0.5310782754280542, 0.5076251588319083, 0.48475809121475555, 0.4624903980553677,
    0.44083323627385823, 0.41979566844501565, 0.3993847415257171, 0.3796055693866516,
    0.3604614184693437, 0.341953795923017, 0.32408253961152894, 0.306845909417917,
    0.29024067931245423, 0.27426222968906827, 0.25890463951405346, 0.24416077786983983,
    0.23002239451478873, 0.21648020911729615, 0.2035239988586017, 0.19114268413342744,
    0.17932441211072836, 0.16805663794826917, 0.15732620348436618, 0.14711941325785702,
    0.1374221077331678, 0.12821973363120104, 0.11949741128869594, 0.11123999898874452,
    0.10343215422333296, 0.09605839186518943, 0.08910313924094157, 0.08255078811070175,
    0.07638574357083236, 0.07059246990686702, 0.0651555334325362, 0.060059642358636346,
    0.055289683742240595, 0.050830757572570474, 0.046668208054846595, 0.0427876521577257,
    0.039175005493600784, 0.03581650560419643, 0.03269873272660908, 0.029808628117310155,
    0.027133510013711983, 0.024661087314753284, 0.022379471063648494, 0.020277183817500103,
    0.01834316698992783, 0.01656678625424759, 0.014937835096050144, 0.013446536605285723,
    0.012083543599157955, 0.010839937168255898, 0.009707223739391702, 0.008677330749539176,
    0.00774260102606425, 0.006895785969066004, 0.006130037632083031, 0.005438899797624003,
    0.004816298143928466, 0.004256529599017867, 0.0037542509774318358, 0.0033044669940348295,
    0.002902517747901318, 0.0025440657675291738, 0.0022250827064786392, 0.0019418357759843675,
    0.00169087399814264, 0.00146901435994298, 0.0012733279447082377, 0.0011011261134519384,
    0.0009499468042834704, 0.0008175410133246952, 0.0007018595156842427, 0.0006010398799114749,
    0.0005133938240679038, 0.00043739495615911745, 0.0003716669362167776, 0.00031497209186021226,
    0.00026620051375271666, 0.0002243596520500854, 0.0001885644297670032, 0.00015802788400701202,
    0.00013205234125609997, 0.00011002112846666715, 9.139081749071025e-05, 7.568399658620161e-05,
    6.248255924074409e-05, 5.142149744765882e-05, 4.2183183841757605e-05, 3.449212475934322e-05,
    2.8110164327940182e-05, 2.283211810903611e-05, 1.8481813599879184e-05, 1.4908514031870627e-05,
    1.1983701363170751e-05, 9.598194128378481e-06, 7.659575852520328e-06, 6.089910032094918e-06,
    4.823718203261542e-06, 3.8061983264645003e-06, 2.9916615878138832e-06, 2.34216672085281e-06,
    1.8263320593710639e-06, 1.4183067155493914e-06, 1.0968835125901286e-06, 8.447375638485988e-07,
    6.477756603592981e-07, 4.945828870275441e-07, 3.7595411862360666e-07, 2.844992365915972e-07,
    2.1431204556943013e-07, 1.6069394579076212e-07, 1.199244278290279e-07, 8.90713951402423e-08,
    6.583518512718343e-08, 4.842095019807234e-08, 3.5434777171421937e-08, 2.5799568229535887e-08,
    1.8687282268736427e-08, 1.346464552230203e-08, 9.649888896108964e-09, 6.878461095589907e-09,
    4.8760060974240764e-09, 3.437185674465006e-09, 2.4091773256476002e-09, 1.6788897682161947e-09,
    1.163116581425581e-09, 8.009978447972987e-10, 5.4828357797095e-10, 3.7299501843052736e-10,
    2.5216347918530193e-10, 1.6939457789411684e-10, 1.1306055347494672e-10, 7.496739757381804e-11,
    4.937853877663184e-11, 3.2304464333252424e-11, 2.09893354045114e-11, 1.3542512912336309e-11,
    8.675931414979638e-12, 5.5182369468174856e-12, 3.484193767026112e-12, 2.183592209923368e-12,
    1.3581784274539059e-12, 8.383128960502627e-13, 5.134127524501447e-13, 3.1194977286848145e-13,
    1.8802071730750654e-13, 1.1240208959922889e-13, 6.663992283308776e-14, 3.917679450601626e-14,
    2.283492670261385e-14, 1.3194342231967934e-14, 7.556721775780599e-15, 4.289196222067919e-15,
    2.412423038430878e-15,
];

const TANH_SINH_ABSCISSA: [f64; 409] = [
    -0.9999999999999999, -0.9999999999999999, -0.9999999999999998, -0.9999999999999997,
    -0.9999999999999993, -0.9999999999999989, -0.9999999999999981, -0.9999999999999967,
    -0.9999999999999944, -0.9999999999999906, -0.9999999999999842, -0.9999999999999739,
    -0.999999999999957, -0.9999999999999298, -0.9999999999998863, -0.9999999999998171,
    -0.9999999999997081, -0.9999999999995373, -0.9999999999992715, -0.9999999999988612,
    -0.9999999999982322, -0.9999999999972741, -0.9999999999958246, -0.9999999999936463,
    -0.9999999999903939, -0.9999999999855688, -0.9999999999784553, -0.9999999999680332,
    -0.9999999999528565, -0.9999999999308884, -0.9999999998992777, -0.9999999998540561,
    -0.9999999997897329, -0.9999999996987544, -0.9999999995707878, -0.9999999993917769,
    -0.9999999991427051, -0.9999999987979835, -0.999999998323362, -0.9999999976732368,
    -0.9999999967871991, -0.9999999955856336, -0.9999999939641342, -0.999999991786456,
    -0.9999999888756649, -0.9999999850030763, -0.9999999798745032, -0.999999973113236,
    -0.9999999642390809, -0.9999999526426645, -0.9999999375540783, -0.9999999180047947,
    -0.9999998927816124, -0.9999998603712146, -0.9999998188937128, -0.9999997660233324,
    -0.9999996988941526, -0.9999996139885502, -0.9999995070057195, -0.9999993727073354,
    -0.9999992047371147, -0.9999989954106899, -0.9999987354718659, -0.9999984138109648,
    -0.9999980171405954, -0.9999975296238052, -0.9999969324491904, -0.9999962033471662,
    -0.9999953160412205, -0.9999942396276167, -0.9999929378766629, -0.9999913684483449,
    -0.9999894820148185, -0.9999872212820007, -0.9999845199022708, -0.9999813012701207,
    -0.9999774771924616, -0.9999729464252323, -0.9999675930679435, -0.9999612848078566,
    -0.9999538710056279, -0.9999451806144587, -0.9999350199250824, -0.9999231701292893,
    -0.999909384695144, -0.9998933865475925, -0.9998748650487803, -0.9998534727731114,
    -0.9998288220728749, -0.9998004814311384, -0.9997679715995609, -0.9997307615198084,
    -0.9996882640283532, -0.9996398313456004, -0.9995847503515176, -0.9995222376512172,
    -0.9994514344352746, -0.9993714011409377, -0.9992811119217919, -0.999179448934886,
    -0.9990651964557858, -0.9989370348335121, -0.9987935342988059, -0.9986331486406774,
    -0.9984542087676977, -0.9982549161719962, -0.9980333363154338, -0.9977873919589065,
    -0.9975148564572244, -0.9972133470434688, -0.9968803181281919, -0.9965130546402537,
    -0.9961086654375085, -0.9956640768169531, -0.9951760261553273, -0.9946410557125112,
    -0.9940555066314022, -0.993415513169264, -0.9927169971968273, -0.9919556630026776,
    -0.9911269924416988, -0.9902262404675277, -0.9892484310901339, -0.9881883538007427,
    -0.9870405605073769, -0.9857993630252835, -0.9844588311674308, -0.9830127914811011,
    -0.9814548266773352, -0.9797782758006157, -0.977976235186665, -0.9760415602565767,
    -0.9739668681956775, -0.9717445415654873, -0.9693667328969173, -0.9668253703123558,
    -0.9641121642235473, -0.9612186151511164, -0.9581360227102137, -0.9548554958050227,
    -0.9513679640727469, -0.9476641906151531, -0.9437347860527572, -0.9395702239332747,
    -0.9351608575219846, -0.9304969379971534, -0.9255686340686127, -0.9203660530319527,
    -0.9148792632645746, -0.9090983181630204, -0.9030132815135739, -0.896614254280076,
    -0.8898914027842602, -0.882834988244669, -0.8754353976304087, -0.8676831757756459,
    -0.8595690586898966, -0.8510840079878488, -0.8422192463507568, -0.8329662939194109,
    -0.8233170055064024, -0.8132636085029739, -0.8027987413432413, -0.791915492376142,
    -0.7806074389832003, -0.7688686867682466, -0.75669390863373, -0.7440783835473472,
    -0.7310180347925614, -0.7175094674873241, -0.703550005147142, -0.6891377250616676,
    -0.6742714922484359, -0.65895099174335, -0.6431767589852047, -0.6269502080510427,
    -0.6102736575006389, -0.5931503535919531, -0.5755844906351517, -0.5575812282607782,
    -0.5391467053879677, -0.5202880506912302, -0.5010133893793091, -0.48133184611690505,
    -0.4612535439395857, -0.44078959903390086, -0.4199521112784471, -0.3987541504672377,
    -0.3772097381640342, -0.3553338251650745, -0.3331422645776381, -0.3106517805528459,
    -0.28787993274271595, -0.26484507658344797, -0.24156631953888363, -0.218063473469712,
    -0.1943570033249354, -0.17046797238201053, -0.14641798429058792, -0.12222912220155766,
    -0.09792388528783233, -0.07352512298567129, -0.049055967305077885, -0.024539763574649157,
    0.0, 0.024539763574649157, 0.049055967305077885, 0.07352512298567129,
    0.09792388528783233, 0.12222912220155766, 0.14641798429058792, 0.17046797238201053,
    0.1943570033249354, 0.218063473469712, 0.24156631953888363, 0.26484507658344797,
    0.28787993274271595, 0.3106517805528459, 0.3331422645776381, 0.3553338251650745,
    0.3772097381640342, 0.3987541504672377, 0.4199521112784471, 0.44078959903390086,
    0.4612535439395857, 0.48133184611690505, 0.5010133893793091, 0.5202880506912302,
    0.5391467053879677, 0.5575812282607782, 0.5755844906351517, 0.5931503535919531,
    0.6102736575006389, 0.6269502080510427, 0.6431767589852047, 0.65895099174335,
    0.6742714922484359, 0.6891377250616676, 0.703550005147142, 0.7175094674873241,
    0.7310180347925614, 0.7440783835473472, 0.75669390863373, 0.7688686867682466,
    0.7806074389832003, 0.791915492376142, 0.8027987413432413, 0.8132636085029739,
    0.8233170055064024, 0.8329662939194109, 0.8422192463507568, 0.8510840079878488,
    0.8595690586898966, 0.8676831757756459, 0.8754353976304087, 0.882834988244669,
    0.8898914027842602, 0.896614254280076, 0.9030132815135739, 0.9090983181630204,
    0.9148792632645746, 0.9203660530319527, 0.9255686340686127, 0.9304969379971534,
    0.9351608575219846, 0.9395702239332747, 0.9437347860527572, 0.9476641906151531,
    0.9513679640727469, 0.9548554958050227, 0.9581360227102137, 0.9612186151511164,
    0.9641121642235473, 0.9668253703123558, 0.9693667328969173, 0.9717445415654873,
    0.9739668681956775, 0.9760415602565767, 0.977976235186665, 0.9797782758006157,
    0.9814548266773352, 0.9830127914811011, 0.9844588311674308, 0.9857993630252835,
    0.9870405605073769, 0.9881883538007427, 0.9892484310901339, 0.9902262404675277,
    0.9911269924416988, 0.9919556630026776, 0.9927169971968273, 0.993415513169264,
    0.9940555066314022, 0.9946410557125112, 0.9951760261553273, 0.9956640768169531,
    0.9961086654375085, 0.9965130546402537, 0.9968803181281919, 0.9972133470434688,
    0.9975148564572244, 0.9977873919589065, 0.9980333363154338, 0.9982549161719962,
    0.9984542087676977, 0.9986331486406774, 0.9987935342988059, 0.9989370348335121,
    0.9990651964557858, 0.999179448934886, 0.9992811119217919, 0.9993714011409377,
    0.9994514344352746, 0.9995222376512172, 0.9995847503515176, 0.9996398313456004,
    0.9996882640283532, 0.9997307615198084, 0.9997679715995609, 0.9998004814311384,
    0.9998288220728749, 0.9998534727731114, 0.9998748650487803, 0.9998933865475925,
    0.999909384695144, 0.9999231701292893, 0.9999350199250824, 0.9999451806144587,
    0.9999538710056279, 0.9999612848078566, 0.9999675930679435, 0.9999729464252323,
    0.9999774771924616, 0.9999813012701207, 0.9999845199022708, 0.9999872212820007,
    0.9999894820148185, 0.9999913684483449, 0.9999929378766629, 0.9999942396276167,
    0.9999953160412205, 0.9999962033471662, 0.9999969324491904, 0.9999975296238052,
    0.9999980171405954, 0.9999984138109648, 0.9999987354718659, 0.9999989954106899,
    0.9999992047371147, 0.9999993727073354, 0.9999995070057195, 0.9999996139885502,
    0.9999996988941526, 0.9999997660233324, 0.9999998188937128, 0.9999998603712146,
    0.9999998927816124, 0.9999999180047947, 0.9999999375540783, 0.9999999526426645,
    0.9999999642390809, 0.999999973113236, 0.9999999798745032, 0.9999999850030763,
    0.9999999888756649, 0.999999991786456, 0.9999999939641342, 0.9999999955856336,
    0.9999999967871991, 0.9999999976732368, 0.999999998323362, 0.9999999987979835,
    0.9999999991427051, 0.9999999993917769, 0.9999999995707878, 0.9999999996987544,
    0.9999999997897329, 0.9999999998540561, 0.9999999998992777, 0.9999999999308884,
    0.9999999999528565, 0.9999999999680332, 0.9999999999784553, 0.9999999999855688,
    0.9999999999903939, 0.9999999999936463, 0.9999999999958246, 0.9999999999972741,
    0.9999999999982322, 0.9999999999988612, 0.9999999999992715, 0.9999999999995373,
    0.9999999999997081, 0.9999999999998171, 0.9999999999998863, 0.9999999999999298,
    0.999999999999957, 0.9999999999999739, 0.9999999999999842, 0.9999999999999906,
    0.9999999999999944, 0.9999999999999967, 0.9999999999999981, 0.9999999999999989,
    0.9999999999999993, 0.9999999999999997, 0.9999999999999998, 0.9999999999999999,
    0.9999999999999999,
];

const GAUSS_LEGENDRE_ABSCISSA: [f64; 224] = [
    -0.5773502691896257, 0.5773502691896257, -0.7745966692414834, 0.0,
    0.7745966692414834, -0.8611363115940526, -0.33998104358485626, 0.33998104358485626,
    0.8611363115940526, -0.906179845938664, -0.5384693101056831, 0.0,
    0.5384693101056831, 0.906179845938664, -0.932469514203152, -0.6612093864662645,
    -0.2386191860831969, 0.2386191860831969, 0.6612093864662645, 0.932469514203152,
    -0.9491079123427585, -0.7415311855993945, -0.4058451513773972, 0.0,
    0.4058451513773972, 0.7415311855993945, 0.9491079123427585, -0.9602898564975363,
    -0.7966664774136267, -0.525532409916329, -0.1834346424956498, 0.1834346424956498,
    0.525532409916329, 0.7966664774136267, 0.9602898564975363, -0.9681602395076261,
    -0.8360311073266358, -0.6133714327005904, -0.3242534234038089, 0.0,
    0.3242534234038089, 0.6133714327005904, 0.8360311073266358, 0.9681602395076261,
    -0.14887433898163122, 0.0, -0.1252334085114689, 0.0,
    -0.10805494870734367, 0.0, -0.09501250983763744, 0.0,
    -0.0847750130417353, 0.0, -0.07652652113349734, 0.07652652113349734,
    -0.1455618541608951, 0.0, -0.06973927331972223, 0.06973927331972223,
    -0.1332568242984661, 0.0, -0.06405689286260563, 0.06405689286260563,
    -0.1228646926107104, 0.0, -0.05923009342931321, 0.05923009342931321,
    -0.11397258560952997, 0.0, -0.05507928988403427, 0.05507928988403427,
    -0.10627823013267923, 0.0, -0.15386991360858354, -0.0514718425553177,
    0.0514718425553177, -0.09955531215234152, 0.0, 0.09955531215234152,
    -0.1444719615827965, -0.04830766568773832, 0.04830766568773832, -0.09363106585473338,
    0.0, 0.09363106585473338, -0.13615235725918298, -0.04550982195310254,
    0.04550982195310254, -0.08837134327565926, 0.0, 0.08837134327565926,
    -0.1287361038093848, -0.04301819847370861, 0.04301819847370861, -0.0836704089547699,
    0.0, 0.0836704089547699, -0.12208402533786741, -0.04078514790457824,
    0.04078514790457824, -0.07944380460875548, 0.0, 0.07944380460875548,
    -0.11608407067525521, -0.03877241750605082, 0.03877241750605082, 0.11608407067525521,
    -0.15081335486399217, -0.075623258989163, 0.0, 0.075623258989163,
    -0.11064502720851987, -0.03694894316535178, 0.03694894316535178, 0.11064502720851987,
    -0.14392980951071332, -0.07215299087458624, 0.0, 0.07215299087458624,
    -0.10569190170865325, -0.035289236964135356, 0.035289236964135356, 0.10569190170865325,
    -0.13764520598325303, -0.06898698016314417, 0.0, 0.06898698016314417,
    -0.10116247530558424, -0.03377219001605204, 0.03377219001605204, 0.10116247530558424,
    -0.1318848665545149, -0.06608692391635568, 0.0, 0.06608692391635568,
    -0.0970046992094627, -0.03238017096286936, 0.03238017096286936, 0.0970046992094627,
    -0.12658599726967204, -0.06342068498268678, 0.0, 0.06342068498268678,
    -0.1548905899981459, -0.09317470156008614, -0.031098338327188876, 0.031098338327188876,
    0.09317470156008614, -0.12169542101888876, -0.06096110015057873, 0.0,
    0.06096110015057873, 0.12169542101888876, -0.14903550860694917, -0.08963524464890056,
    -0.029914109797338766, 0.029914109797338766, 0.08963524464890056, -0.11716780907195515,
    -0.058685054300259464, 0.0, 0.058685054300259464, 0.11716780907195515,
    -0.14360542731625614, -0.08635451826324822, -0.02881674819934178, 0.02881674819934178,
    0.08635451826324822, -0.11296428805932926, -0.05657275381833678, 0.0,
    0.05657275381833678, 0.11296428805932926, -0.13855584681037625, -0.08330518682243537,
    -0.027797035287275437, 0.027797035287275437, 0.08330518682243537, -0.1090513328087878,
    -0.05460715100164682, 0.0, 0.05460715100164682, 0.1090513328087878,
    -0.13384825059546684, -0.08046363021414273, -0.026847012365942356, 0.026847012365942356,
    0.08046363021414273, -0.10539987901634415, -0.05277348408831, 0.0,
    0.05277348408831, 0.10539987901634415, -0.129449135396945, -0.07780933394953657,
    -0.0259597723012478, 0.0259597723012478, 0.07780933394953657, 0.129449135396945,
    -0.1526442402308153, -0.10198460656227407, -0.05105890670797435, 0.0,
    0.05105890670797435, 0.10198460656227407, -0.1253292236158968, -0.07532439549623433,
    -0.025129291421820615, 0.025129291421820615, 0.07532439549623433, 0.1253292236158968,
    -0.14787278635787196, -0.09878335644694528, -0.049452187116159625, 0.0,
    0.049452187116159625, 0.09878335644694528, -0.12146281929612056, -0.07299312178779904,
    -0.024350292663424433, 0.024350292663424433, 0.07299312178779904, 0.12146281929612056,
];

const GAUSS_LEGENDRE_WEIGHTS: [f64; 224] = [
    1.0, 1.0, 0.5555555555555556, 0.5555555555555556,
    0.8888888888888888, 0.34785484513745385, 0.34785484513745385, 0.6521451548625461,
    0.6521451548625461, 0.23692688505618908, 0.23692688505618908, 0.47862867049936647,
    0.47862867049936647, 0.5688888888888889, 0.17132449237917036, 0.17132449237917036,
    0.3607615730481386, 0.3607615730481386, 0.46791393457269104, 0.46791393457269104,
    0.1294849661688697, 0.1294849661688697, 0.27970539148927664, 0.27970539148927664,
    0.3818300505051189, 0.3818300505051189, 0.4179591836734694, 0.10122853629037626,
    0.10122853629037626, 0.22238103445337448, 0.22238103445337448, 0.31370664587788727,
    0.31370664587788727, 0.362683783378362, 0.362683783378362, 0.08127438836157441,
    0.08127438836157441, 0.1806481606948574, 0.1806481606948574, 0.26061069640293544,
    0.26061069640293544, 0.31234707704000286, 0.31234707704000286, 0.3302393550012598,
    0.29552422471475287, 0.2729250867779006, 0.24914704581340277, 0.2325515532308739,
    0.2152638534631578, 0.2025782419255613, 0.1894506104550685, 0.17944647035620653,
    0.1691423829631436, 0.1610544498487837, 0.15275338713072584, 0.15275338713072584,
    0.14452440398997005, 0.14608113364969041, 0.13925187285563198, 0.13925187285563198,
    0.1324620394046966, 0.13365457218610619, 0.12793819534675216, 0.12793819534675216,
    0.12224244299031004, 0.12317605372671545, 0.11832141527926228, 0.11832141527926228,
    0.11347634610896515, 0.114220867378957, 0.1100470130164752, 0.1100470130164752,
    0.10587615509732094, 0.10647938171831424, 0.1017623897484055, 0.10285265289355884,
    0.10285265289355884, 0.09922501122667231, 0.09922501122667231, 0.09972054479342646,
    0.09563872007927486, 0.0965400885147278, 0.0965400885147278, 0.09335642606559612,
    0.09335642606559612, 0.09376844616021, 0.09020304437064074, 0.09095674033025987,
    0.09095674033025987, 0.08814053043027546, 0.08814053043027546, 0.08848679490710429,
    0.08534668573933862, 0.08598327567039475, 0.08598327567039475, 0.08347457362586279,
    0.08347457362586279, 0.0837683609931389, 0.0809824937705971, 0.08152502928038578,
    0.08152502928038578, 0.07927622256836847, 0.07927622256836847, 0.07952762213944285,
    0.07703981816424797, 0.07703981816424797, 0.0775059479784248, 0.0775059479784248,
    0.07482962317622155, 0.07547874709271582, 0.07547874709271582, 0.07569553564729838,
    0.07346081345346753, 0.07346081345346753, 0.07386423423217288, 0.07386423423217288,
    0.07146373425251414, 0.07202750197142198, 0.07202750197142198, 0.07221575169379899,
    0.07019768547355822, 0.07019768547355822, 0.07054915778935407, 0.07054915778935407,
    0.06838457737866968, 0.06887731697766132, 0.06887731697766132, 0.06904182482923202,
    0.06721061360067818, 0.06721061360067818, 0.06751868584903646, 0.06751868584903646,
    0.06555737776654974, 0.06599053358881048, 0.06599053358881048, 0.06613512962365548,
    0.06446616443595009, 0.06446616443595009, 0.06473769681268392, 0.06473769681268392,
    0.0629527074651957, 0.06333550929649175, 0.06333550929649175, 0.0634632814047906,
    0.061455899590316665, 0.06193606742068324, 0.06193606742068324, 0.06217661665534726,
    0.06217661665534726, 0.06054550693473779, 0.06054550693473779, 0.060885464844856345,
    0.060885464844856345, 0.06099892484120588, 0.05916881546604297, 0.05959626017124816,
    0.05959626017124816, 0.05981036574529186, 0.05981036574529186, 0.05831431136225601,
    0.05831431136225601, 0.058617586232720266, 0.058617586232720266, 0.058718794151164364,
    0.0570439735587946, 0.05742613705411211, 0.05742613705411211, 0.057617536707147025,
    0.057617536707147025, 0.056240634071084365, 0.056240634071084365, 0.056512318249772,
    0.056512318249772, 0.05660297644456042, 0.055064895901762424, 0.05540795250324512,
    0.05540795250324512, 0.055579746306514397, 0.055579746306514397, 0.05430847145249864,
    0.05430847145249864, 0.05455280360476188, 0.05455280360476188, 0.05463432875658403,
    0.05321723644657901, 0.053526343304058255, 0.053526343304058255, 0.05368111986333485,
    0.05368111986333485, 0.05250390264782874, 0.05250390264782874, 0.05272443385912793,
    0.05272443385912793, 0.05279801262199042, 0.051488451500980935, 0.051488451500980935,
    0.05176794317491019, 0.05176794317491019, 0.051907877631220636, 0.051907877631220636,
    0.05048247038679741, 0.05081476366881834, 0.05081476366881834, 0.051014487038697265,
    0.051014487038697265, 0.05108111944078622, 0.049867528594952394, 0.049867528594952394,
    0.05012106956904329, 0.05012106956904329, 0.05024800037525628, 0.05024800037525628,
    0.04892845282051199, 0.04923038042374756, 0.04923038042374756, 0.04941183303991818,
    0.04941183303991818, 0.04947236662393102, 0.048344762234802954, 0.048344762234802954,
    0.04857546744150343, 0.04857546744150343, 0.048690957009139724, 0.048690957009139724,
];

fn same_numbers(bits: &[u64], numbers: &[f64]) -> bool {
    bits.len() == numbers.len()
        && bits.iter().zip(numbers.iter()).all(|(b, x)| *b == x.to_bits())
}

#[test]
fn tanh_sinh_tables_hold_the_published_numbers() {
    assert!(same_numbers(&tanh_sinh::WEIGHTS, &TANH_SINH_WEIGHTS));
    assert!(same_numbers(&tanh_sinh::ABSCISSA, &TANH_SINH_ABSCISSA));
    assert_eq!(f64::from_bits(tanh_sinh::H), 0.015625);
}

#[test]
fn gauss_legendre_tables_hold_the_published_numbers() {
    assert!(same_numbers(&gauss_legendre::ABSCISSA, &GAUSS_LEGENDRE_ABSCISSA));
    assert!(same_numbers(&gauss_legendre::WEIGHTS, &GAUSS_LEGENDRE_WEIGHTS));
}

#[test]
fn tables_have_matching_lengths() {
    assert_eq!(tanh_sinh::ABSCISSA.len(), 409);
    assert_eq!(tanh_sinh::WEIGHTS.len(), 409);
    assert_eq!(tanh_sinh::POINTS, 409);
    assert_eq!(gauss_legendre::ABSCISSA.len(), 224);
    assert_eq!(gauss_legendre::WEIGHTS.len(), 224);
    assert_eq!(gauss_legendre::ENTRIES, 224);
}

#[test]
fn weights_are_positive_and_finite() {
    for bits in tanh_sinh::WEIGHTS.iter().chain(gauss_legendre::WEIGHTS.iter()) {
        let w = f64::from_bits(*bits);
        assert!(w.is_finite() && w > 0.0);
    }
}

#[test]
fn abscissas_lie_in_the_reference_interval() {
    for bits in tanh_sinh::ABSCISSA.iter() {
        let x = f64::from_bits(*bits);
        assert!(-1.0 < x && x < 1.0);
    }
    for bits in gauss_legendre::ABSCISSA.iter() {
        let x = f64::from_bits(*bits);
        assert!(-1.0 <= x && x <= 1.0);
    }
}

#[test]
fn tanh_sinh_abscissas_rise() {
    let x: Vec<f64> = tanh_sinh::ABSCISSA.iter().map(|b| f64::from_bits(*b)).collect();
    for i in 0..x.len() - 1 {
        assert!(x[i] <= x[i + 1]);
    }
    for i in 1..x.len() - 2 {
        assert!(x[i] < x[i + 1]);
    }
    assert_eq!(x[0], x[1]);
    assert_eq!(x[407], x[408]);
    assert_eq!(x[0], -0.9999999999999999);
    assert_eq!(x[408], 0.9999999999999999);
}

#[test]
fn tanh_sinh_rule_is_symmetric() {
    assert_eq!(tanh_sinh::MIDDLE, 204);
    assert_eq!(f64::from_bits(tanh_sinh::ABSCISSA[204]), 0.0);
    for i in 0..409 {
        let x = f64::from_bits(tanh_sinh::ABSCISSA[i]);
        let mirrored = f64::from_bits(tanh_sinh::ABSCISSA[408 - i]);
        assert_eq!(mirrored, -x);
        assert_eq!(tanh_sinh::WEIGHTS[i], tanh_sinh::WEIGHTS[408 - i]);
    }
}

#[test]
fn tanh_sinh_weights_times_step_sum_to_two() {
    let sum: f64 = tanh_sinh::WEIGHTS.iter().map(|b| f64::from_bits(*b)).sum();
    let scaled = f64::from_bits(tanh_sinh::H) * sum;
    assert!((scaled - 2.0).abs() <= 1e-9);
}

#[test]
fn nodes_pair_the_two_tables() {
    let nodes = tanh_sinh::nodes();
    assert_eq!(nodes.len(), 409);
    for (i, node) in nodes.iter().enumerate() {
        assert_eq!(node.abscissa, tanh_sinh::ABSCISSA[i]);
        assert_eq!(node.weight, tanh_sinh::WEIGHTS[i]);
    }
    assert_eq!(f64::from_bits(nodes[204].weight), 1.5707963267948966);
    assert_eq!(f64::from_bits(nodes[0].weight), 2.412423038430878e-15);
}
