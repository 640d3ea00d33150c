//! The English word list that settles ambiguous multi-character keys: lowercase a–z,
//! in alphabetical order, kept by first letter.

use vstd::prelude::*;

use crate::text::{chars_of, equals_range, extend_chars, spec_split, split_on, string_of, views};

verus! {

/// The list in shelves, in order: each holds a run of the listed words that begin with its
/// letter, in alphabetical order and separated by single spaces, each written without that
/// first letter (the one-letter word is the empty piece in front of the first space).
const SHELVES: [(char, &'static str); 35] = [
    ('a', WORDS_A1),
    ('a', WORDS_A2),
    ('b', WORDS_B),
    ('c', WORDS_C1),
    ('c', WORDS_C2),
    ('c', WORDS_C3),
    ('d', WORDS_D1),
    ('d', WORDS_D2),
    ('e', WORDS_E1),
    ('e', WORDS_E2),
    ('f', WORDS_F),
    ('g', WORDS_G),
    ('h', WORDS_H),
    ('i', WORDS_I),
    ('j', WORDS_J),
    ('k', WORDS_K),
    ('l', WORDS_L),
    ('m', WORDS_M),
    ('n', WORDS_N),
    ('o', WORDS_O),
    ('p', WORDS_P1),
    ('p', WORDS_P2),
    ('q', WORDS_Q),
    ('r', WORDS_R1),
    ('r', WORDS_R2),
    ('s', WORDS_S1),
    ('s', WORDS_S2),
    ('s', WORDS_S3),
    ('t', WORDS_T),
    ('u', WORDS_U),
    ('v', WORDS_V),
    ('w', WORDS_W),
    ('x', WORDS_X),
    ('y', WORDS_Y),
    ('z', WORDS_Z),
];

const WORDS_A1: &'static str = " bandon bandoned bandoning bandons bbey bbeys bbot bbots bdomen bdomens bduct bducted \
     bducting bducts bide bided bides biding bilities bility bject ble bode bodes bolish \
     bolished bolishes bolishing bort bortable borted borting bortion bortions borts bound \
     bounded bounding bounds bout bove brasive brasively bridge bridged bridges bridging \
     broad brupt bruptly bsence bsences bsent bsentminded bsolute bsolutely bsoluteness \
     bsolve bsolved bsolves bsolving bsorb bsorbed bsorbing bsorbs bstain bstained bstaining \
     bstains bstemious bstemiously bstract bstracts bsurd bsurdly bundance bundances bundant \
     bundantly buse bused buses busing busive cademic cademies cademy ccede cceded ccedes \
     cceding ccelerate ccelerated ccelerates ccelerating ccent ccents ccept cceptable \
     cceptably cceptance cceptances ccepted ccepting ccepts ccess ccessed ccesses ccessible \
     ccessiblity ccessibly ccessing ccident ccidental ccidentally ccidents cclaim cclaimed \
     cclaiming cclaims ccommodate ccommodated ccommodates ccommodating ccommodation \
     ccommodations ccompanied ccompanies ccompany ccompanying ccomplish ccomplished \
     ccomplishes ccomplishing ccomplishment ccomplishments ccord ccorded ccording ccordingly \
     ccordion ccordions ccords ccost ccosted ccosting ccosts ccount ccountable ccountant \
     ccountants ccounted ccounting ccounts ccredit ccredited ccredits ccrue ccrued ccrues \
     ccruing ccumulate ccumulated ccumulates ccumulating ccumulative ccuracies ccuracy \
     ccurate ccurately ccusation ccusations ccuse ccused ccuses ccusing ce cerbic ces che \
     ched ches chievable chieve chieved chievement chievements chieves chieving ching cid \
     cidic cids cknowledge cknowledged cknowledgement cknowledgements cknowledges \
     cknowledging cknowledgment cknowledgments cne corn corns cquaint cquaintance \
     cquaintances cquainted cquainting cquaints cquire cquired cquirer cquires cquiring \
     cquisition cquisitions cquit cquits cre cres crid crobat crobats cross ct cted cting \
     ction ctions ctivatable ctivate ctivated ctivates ctivating ctive ctively ctivist \
     ctivists ctivities ctivity ctor ctors ctress ctresses cts ctual ctuality ctually ctuate \
     ctuated ctuates ctuating cute damant dapt daptable daptation daptations dapted dapter \
     dapters dapting daptive daptively dapts dd dded ddict ddiction ddictions ddicts dding \
     ddition dditional dditionnal dditions ddress ddressable ddressed ddresses ddressing dds \
     dept dequate dequately dhere dhered dheres dhering djacent djective djectives djoin \
     djoined djoining djoins djourn djourned djourning djourns djudicate djudicated \
     djudicates djudicating djust djustable djusted djuster djusting djustment djustments \
     djusts dminister dministered dministers dministration dministrations dministrative \
     dministratively dministrator dministrators dmirable dmiral dmirals dmiration dmirations \
     dmire dmired dmires dmiring dmission dmissions dmit dmits dmitted dmitting dmonish \
     dmonished dmonishes dmonishing dolescent dolescents dopt dopted dopters dopting doption \
     doptions dopts dorable dore dored dores doring dorn dorned dorning dornments dorns \
     droit dult dulterate dulterated dulterates dulterating dulthood dults dvance dvanced \
     dvances dvancing dvantage dvantages dventure dventures dventurous dventurously dverb \
     dverbs dversaries dversary dverse dversely dvert dverted dverting dvertise dvertised \
     dvertisement dvertisements dvertises dvertising dverts dvice dvices dvisable dvise \
     dvised dviser dvisers dvises dvising dvocate dvocated dvocates dvocating erobics \
     esthetic esthetically ffable ffair ffairs ffect ffected ffecting ffection ffectionate \
     ffectionately ffections ffects ffinities ffinity ffirm ffirmed ffirmer ffirming ffirms \
     ffix ffixed ffixes ffixing fflict fflicted fflicting fflicts ffluence ffluences ffluent \
     fford fforded ffording ffords fraid fter fterlife fterlifes ftermath fternoon fternoons \
     fterward fterwards gain gainst ge ged gencies gency genda gendas gent gents ges \
     ggravate ggravated ggravates ggravating ggregate ggregated ggregates ggregating \
     ggression ggressions ggressive ggressively ggressiveness gile ging gitate gitated \
     gitates gitating go gonies gonize gonized gonizes gonizing gony gree greed greeing \
     greement greements grees gricultural griculturally griculture gricultures h head id ide \
     ided ides iding ids ilment ilments im imed iming imless imlessly ims ir ircraft \
     ircrafts irflow irlift irlifted irlifting irlifts irline irlines irmail irmails irplane \
     irplanes irport irports irs irspace iry isle isles larm larmed larming larms las lbum \
     lbums lcohol lcohols lert lerted lerting lertness lerts lgebra lgebras libi libis lien \
     lienate lienated lienates lienating liens light lighted lighting lights lign ligned \
     ligning lignment lignments ligns like live lively ll llay llayed llaying llays \
     llegation llegations llege lleged lleges lleging llergic llergy lleviate lleviated \
     lleviates lleviating lley lleys lliance lliances llies lligator lligators llocatable \
     llocate llocated llocates llocating llocation llocations llot llots llotted llotting \
     llow llowable llowance llowances llowed llowing llows llude lluded lludes lluding llure \
     llured llures lluring lly lmanac lmanacs lmond lmonds lmost lone long loof loud lpaca \
     lpacas lphabet lphabetize lphabets lready lright lso ltar ltars lter lteration \
     lterations ltered ltering lternate lternated lternates lternating lternative \
     lternatively lternatives lters lthough ltitude ltitudes ltogether luminum luminums \
     lumni lways m mass massed masses massing mateur mateurs maze mazed mazes mazing \
     mazingly mbassador mbassadors mber mbers mbiguous mbiguously mbition mbitions mbitious \
     mbitiously mble mbled mbles mbling mbulance mbulances mbush mbushed mbushes mbushing \
     mend mended mending mendment mendments mends miable micable mid midst mnesty mong \
     mongst morous morously mount mounted mounting mounts mphibious mphibiously mple \
     mplified mplifies mplify mplifying mply mputate mputated mputates mputating mulet \
     mulets muse mused musement musements muses musing musingly n nalog nalogies nalogy \
     nalyse nalysed nalyser nalysers nalyses nalysing nalysis nalyst nalysts nalytical \
     nalytically nalyze nalyzed nalyzer nalyzers nalyzes nalyzing natomies natomy ncestor \
     ncestors ncestry nchor nchored nchoring nchors ncient nd necdote nemic nesthetize \
     nesthetized nesthetizes nesthetizing new ngel ngelic ngels nger ngers ngle ngles ngry \
     nguish nguished nguishes nguishing ngular nimal nimals nimate nimated nimates nimating \
     nkle nkles nnex nnexed nnexes nnexing nnihilate nnihilated nnihilates nnihilating \
     nniversaries nniversary nnotate nnotated nnotates nnotating nnounce nnounced \
     nnouncement nnouncements nnounces nnouncing nnoy nnoyance nnoyances nnoyed nnoying \
     nnoys nnual nnually noint nointed nointing noints nonymous nonymously nother nswer \
     nswered nswering nswers nt ntagonize ntagonized ntagonizes ntagonizing ntelope ntelopes \
     ntenna ntennas nthem nthems nthologies nthology nticipate nticipated nticipates \
     nticipating nticipation nticipations ntidote ntique ntiques nts nvil nvils nxieties \
     nxiety nxious nxiously ny nybody nyhow nymore nyone nything nyway nywhere part partment \
     partments pathetic pathy pe pes plenty pologies pologize pologized pologizes pologizing \
     pology pp ppalling pparatus pparent pparently ppeal ppealed ppealing ppeals ppear \
     ppearance ppearances ppeared ppearing ppears ppease ppeased ppeases ppeasing ppend \
     ppended ppendices ppending ppends ppetite ppetites pplaud pplauded pplauding pplauds \
     pplause pplauses pple pples ppliance ppliances ppliation pplicable pplicant pplicants \
     pplication pplications pplied pplies pply pplying ppoint ppointed ppointing ppointment \
     ppointments ppoints pportion pportioned pportioning pportions ppraisal ppraisals \
     ppraise ppraised ppraises ppraising ppreciate ppreciated ppreciates ppreciating \
     ppreciation ppreciations ppreciative ppreciatively pprehend pprehended pprehending \
     pprehends pprehensive pprehensively pprentice pprenticed pprentices pprenticing pproach \
     pproached pproaches pproaching ppropriate ppropriately ppropriateness pproval pprovals \
     pprove pproved pprover pproves pproving pproximate pproximated pproximately pproximates \
     pproximating pps pricot pricots pril pron prons pt ptitude ptly quarium quariums quatic \
     quifer quifers rbitrarily rbitrary rbitrate rbitrated rbitrates rbitrating rbor rbors \
     rch rched rcher rchers rches rching rchitect rchitects rchitectural rchitecturally \
     rchitecture rchitectures rchival rchive rchived rchiver rchivers rchives rchiving rctic \
     rdent rduous rduously re rena renas rguable rgue rgued rgues rguing rgument rguments \
     rid rise risen rises rising ristocratic rithmetic rithmetical rithmetics rm rmadillo \
     rmadillos rmchair rmchairs rmed rmies rming rmor rmors rms rmy roma romas romatic rose \
     round rouse roused rouses rousing rrange rranged rrangement rrangements rranges \
     rranging rray rrayed rraying rrays rrest rrested rresting rrests rrival rrivals rrive \
     rrived rrives rriving rrogant rrow rrows rson rt rteries rtery rtichoke rtichokes \
     rticle rticles rticulate rticulated rticulates rticulating rtifact rtifacts rtificial \
     rtificially rtist rtistic rtists rts s scend scended scending scends scertain \
     scertained scertaining scertains sh shamed shen shes shtray shtrays side sk sked sking \
     sks sleep sparagus spect spects spiration spirations spire spired spires spiring ssail \
     ssailed ssailing ssails ssassinate ssassinated ssassinates ssassinating ssault ssaults \
     ssemble ssembled ssembler ssemblers ssembles ssemblies ssembling ssembly ssert sserted \
     sserting ssertion ssertions ssertive ssertively sserts ssess ssessed ssesses ssessing \
     ssessment ssessments sset ssets ssign ssigned ssigning ssignment ssignments ssigns \
     ssimilate ssimilated ssimilates ssimilating ssist ssistance ssistances ssistant \
     ssistants ssisted ssisting ssists ssociate ssociated ssociates ssociating ssociation \
     ssociations ssociative ssuage ssuaged ssuages ssuaging ssume ssumed ssumes ssuming \
     ssumption ssumptions ssurance ssurances ssure ssured ssures ssuring steroid steroids \
     sthma sthmas stonish stonished stonishes stonishing stray stronaut";

const WORDS_A2: &'static str = "stronauts stronomer stronomers stronomies stronomy stute sylum sylums t te thlete \
     thletes thletic tlas tmosphere tmospheres toll tolls tom tomic tomically tomicity toms \
     tone toned tones toning top trocity trophied trophies trophy trophying ttach ttached \
     ttaches ttaching ttachment ttachments ttack ttacked ttacker ttackers ttacking ttacks \
     ttain ttained ttaining ttains ttempt ttempted ttempting ttempts ttend ttendance \
     ttendances ttendant ttendants ttended ttending ttends ttention ttentions ttentive \
     ttentively ttest ttestation ttestations ttested ttesting ttests ttic ttics ttitude \
     ttitudes ttorney ttorneys ttract ttracted ttracting ttraction ttractions ttractive \
     ttractively ttracts ttribute ttributed ttributes ttributing ttune ttuned ttunes ttuning \
     uction uctioned uctioning uctions udacious udaciously udacity udible udience udiences \
     udit udited uditing udition uditioned uditioning uditions uditor uditorium uditoriums \
     uditors udits ugment ugmented ugmenting ugments ugust unt unts ura uspicious \
     uspiciously ustere uthentic uthenticity uthor uthoritarian uthorities uthority \
     uthorization uthorizations uthorize uthorized uthorizer uthorizes uthorizing uthors \
     uthorship utism utobiographies utobiography utomate utomated utomates utomatic \
     utomatically utomating utomobile utomobiles utonomies utonomous utonomously utonomy \
     utumn utumnal utumnally utumns vail vailabilities vailability vailable vailablity \
     vailed vailing vails valanche valanches varicious variciously venge venged venges \
     venging venue venues verage veraged verages veraging vert verted verting verts viaries \
     viary viation viations vid vocado vocados void voidable voided voiding voids vow vowed \
     vowing vows wait waitable waited waiter waiting waits wake waken wakened wakens wakes \
     waking ward warded warding wards ware wareness way we wed wes wesome wesomeness wful \
     wfully while wing wkward wkwardness wning wnings woke woken xe xes xis xle xles";

const WORDS_B: &'static str = "abble abbled abbles abbling abies aboon aboons aby achelor achelors ack ackbone \
     ackbones acked ackfire ackfired ackfires ackfiring ackground ackgrounds acking acklash \
     acklog acklogs ackpack ackpacks acks acktrack acktracked acktracking acktracks ackward \
     ackwards ackyard ackyards acon acons acteria acterias ad adge adger adgers adges adly \
     adminton admintons adness affle affled affles affling ag agel agels aggage aggages \
     agpipe agpipes ags ail ailed ailing ailout ailouts ails ait aited aiter aiting aits ake \
     aked aker akeries akers akery akes aking alance alanced alances alancing alconies \
     alcony ald alk alked alking alks all allad allerina allerinas allet allets alloon \
     alloons allot allots alls almy alsam alsams amboo amboos an anal anally anana ananas \
     and andage andaged andages andaging andanna andannas andied andies ands andy andying \
     ang anged anging angs anish anished anishes anishing anishment anister anisters anjo \
     anjos ank anked anker ankers anking ankruptcy anks anned anner anners anning anquet \
     anquets ans antam antams aptism aptize aptized aptizes aptizing ar arbaric arbarism \
     arbecue arbecues arber arbers are arely argain argained argaining argains arge arges \
     ark arked arker arking arks arley arleys arn arnacle arnacles arns arometer arometers \
     arracks arred arrel arrels arren arricade arricaded arricades arricading arrier arriers \
     arring ars arter arters ase aseball aseballs ased aseless aseline aselines asement \
     asements ases ash ashed ashes ashful ashfully ashing asic asically asil asils asin \
     asing asins asis ask asked asket asketball asketballs askets asking asks assoon assoons \
     at atch atches ath athe athed athes athing athrobe athrobes athroom athrooms aths \
     athtub athtubs ats atted atten attens atter atteries atters attery atting attle attled \
     attles attling awdy awl awled awling awls ay ays e each eaches eacon eacons ead eads \
     eady eagle eagles eak eaks eam eamed eaming eams ean eans ear earable eard eards earer \
     earers earing ears east easts eat eaten eating eats eauties eautified eautifies \
     eautiful eautifully eautify eautifying eauty eaver eavers ecame ecause eckon eckons \
     ecome ecomes ecoming ed edazzle edazzled edazzles edazzling edroom edrooms eds edspread \
     edspreads edtime ee eef eefs eefy eehive eehives een eer eers ees eeswax eeswaxes eet \
     eetle eetles eets efitting efore eforehand efriend efriended efriending efriends eg \
     egan eggar eggars egged egging egin eginner eginners eginning eginnings egins egs \
     eguile eguiled eguiles eguiling egun ehalf ehalfs ehave ehaved ehaves ehaving ehavior \
     ehavioral ehaviors eheld ehind ehold eholding eholds eige eing eings elch elched elches \
     elching elfries elfry elief eliefs elieve elieved elieves elieving elittle elittled \
     elittles elittling ell ellies elligerent ellow ellowed ellowing ellows ells elly elong \
     elonged elonging elongs eloved elow elt elts emoan emoaned emoaning emoans ench enches \
     enchmark enchmarked enchmarker enchmarking enchmarks end ender ending ends eneath \
     enefactor eneficial eneficially enefit enefited enefiting enefits enevolent enign ent \
     equeath equeathed equeathing equeaths erate erated erates erating ereft eret erets \
     erries erry erth erthed erthing erths eseech eseeched eseeches eseeching eside esides \
     esiege esieged esieges esieging esmirch esmirched esmirches esmirching est estow \
     estowed estowing estows et etray etrayed etraying etrays ets etter etting etween eware \
     ewared ewares ewaring ewilder ewildering ewilderment ewilders eyond ias iases ib ible \
     ibles ibliography ibs icker ickers icycle icycles id idding ids ig igger iggest igness \
     igotry ike ikes ilberries ilberry ilingual ilingually ill illion illions illow illowed \
     illowing illows ills in inariness inary ind indable inder inding inds inge inged inges \
     inging inoculars ins iography iologies iology irch irches ird irds irth irthday \
     irthdays irthplace irths iscuit iscuits isect isected isecting isects ishop ishops ison \
     isons it ite ites iting its itten itter itterly izarre izarrely lab labbed labbing labs \
     lack lackberries lackberry lackbird lackbirds lacken lackens lackmail lackmailed \
     lackmailing lackmails lackout lade lades lame lamed lameless lamelessly lames laming \
     lanch lanched lanches lanching land lank lanket lankets lare lared lares laring \
     lasphemy last lasted lasting lasts latant lather lathering lathers laze lazed lazes \
     lazing leach leached leaches leaching leak leat leated leating leats led leed leeding \
     leeds lemish lemished lemishes lemishing lend lended lender lending lends less lessed \
     lesses lessing lessings lew lind linded lindfold lindfolded lindfolding lindfolds \
     linding lindly linds link linked linker linking links liss lissful lissfully lister \
     listers lithe lithely lizzard lizzards loat loated loating loats lock locked locker \
     lockers locking locks log logs lond londe londes lood loodhound loodhounds loods \
     loodthirsty loody loom loomed looming looms lossom lossoms lot lotchy lots lotted \
     lotting louse louses low lower lowfish lowfishes lowing lown lows lue luebell luebells \
     lueberries lueberry luebird luebirds lueprint lueprints luff luffed luffing luffs \
     lunder lunders lunt lunted lunting lunts lur lurred lurring lurry lurs lurt lurted \
     lurting lurts lush lushed lushes lushing luster lusters lustery oar oard oarded oarding \
     oards oars oast oasted oasting oasts oat oats ob obbed obbing obcat obcats ober obs \
     obsled obsleds ode oded odes odge odged odges odging odies oding ody og ogged ogging \
     oggle oggled oggles oggling ogs ogus ogusly oil oiled oiler oiling oils oisterous \
     oisterously old older oldly olster olsters olt olted olting olts omb ombard ombarded \
     ombarding ombards ombastic ombed ombing ombs ombshell ond ondage onded onding onds one \
     ones onfire onfires onnet onnets onus ony ook ookcase ookcases ooked ooking ookmark \
     ookmarked ookmarking ookmarks ooks ookshelf ookshelfs oom oomerang oomeranged \
     oomeranging oomerangs ooms oorish oost oosted oosting oosts oot ootleg ootlegs oots \
     order orders ore ored oredom ores oring orne orrow orrowed orrowing orrows oss osses \
     ossy otch otched otches otching oth other othered othering others ottle ottled \
     ottleneck ottlenecked ottlenecking ottlenecks ottles ottling ottom ottoms ought oulder \
     oulders ounce ounced ounces ouncing ound oundaries oundary ounded ounding oundless \
     oundlessly ounds ountiful ountifully ounty ouquet ouquets ow owed owers owing owl owled \
     owler owling owls ows ox oxed oxer oxers oxes oxing oxings oy oycott oycotts oyfriend \
     oyhood oyish oys race raced racelet racelets races racing racken rackens rag ragged \
     ragging rags raid raided raiding raids rain rains rainstorm rainstormed rainstorming \
     rainstorms rainwash rainwashed rainwashes rainwashing rake raked rakes raking ramble \
     rambles ranch ranched ranches ranching ranchless rand randed randing randish randished \
     randishes randishing rands rash rass rasses ravado rave raved raveries ravery raves \
     raving rawl rawled rawling rawls razen razens razier raziers reach reached reaches \
     reaching read readcrumb readcrumbs reads readth readths reak reakable reaker reakfast \
     reakfasted reakfasting reakfasts reaking reaks reakthrough reakthroughs reakwater \
     reakwaters reast reasts reath reathe reathed reathes reathing reathless reathlessly \
     reaths red reed reeding reeds reeze reezes reezy revity rew rewed rewing rews ribe \
     ribed ribes ribing rick ricks ride rides ridge ridged ridges ridging ridle ridled \
     ridles ridling rief riefed riefer riefing riefly riefs rigade rigades right righten \
     rightens righter rightest rightly rightness rilliance rilliant ring ringing rings risk \
     ristle ristled ristles ristling ristly rittle rittleness roach roached roaches roaching \
     road roadcast roadcasting roadcasts roaden roadened roadens roader roadest roadly \
     roccoli roccolis rochure rochures roil roiled roiling roils roke roken rokeness \
     rokenness roker rokers ronze ronzed ronzes ronzing rooch rooches rood rooded rooding \
     roods rook rooks room rooms roth rother rotherhood rotherly rothers roths rought row \
     rown rows rowsable rowse rowsed rowser rowsers rowses rowsing ruise ruised ruises \
     ruising runch runched runches runching rush rushed rushes rushing rusque rutal rutality \
     rutally ubble ubbled ubbles ubbling ubbly uck ucked ucket ucketized uckets ucking uckle \
     uckled uckles uckling ucks uckwheat uckwheats ud udded udding udge udged udges udget \
     udgets udging uds uffalo uffalos uffer uffered ufferring uffers uffet uffets ug ugle \
     ugles ugs uild uildable uilder uilders uilding uildings uilds uilt ulb ulbous ulbously \
     ulbs ulge ulged ulges ulging ulk ulkiness ulks ulky ull ulldog ulldogs ulldoze ulldozed \
     ulldozer ulldozes ulldozing ullet ulletin ulletins ullets ullfrog ullfrogs ullied \
     ullies ulls ully ullying umble umblebee umblebees umbled umbles umbling ump umped \
     umping umps umpy unch unches undle undled undler undles undling ungalow ungalows ungle \
     ungled ungles ungling unnies unny uoy uoyant uoys urden urdens ureau ureaucracy ureaus \
     urgeon urgeoned urgeoning urgeons urger urgers urglar urglars urglary urial urials \
     uried uries urlap urlaps urly urn urned urning urnish urnished urnishes urnishing urns \
     urnt urp urped urping urps urrow urrowed urrowing urrows urst ursting ursts ury urying \
     us uses ush ushel ushels ushes ushy usiness usinesses usinessman usinessmen usk usked \
     usking usks ust usted uster usting ustle ustled ustles ustling usts usy ut utcher \
     utcheries utchers utchery utt utted utter uttercup uttercups utterflies utterfly utters \
     utting utton uttons uttress uttressed uttresses uttressing utts uxom uy uyer uyers \
     uying uys uzz uzzard uzzards uzzed uzzes uzzing uzzword uzzwords y ye ypass ypassed \
     ypasses ypassing";

const WORDS_C1: &'static str = "ab abana abanas abaret abarets abbage abbages abin abinet abinets abins able ables abs \
     ackle ackled ackles ackling acti actus afe afes afeteria afeterias age ages agey ajole \
     ajoled ajoles ajoling ake akes alamity alculate alculated alculates alculating \
     alculation alculations alculator alculators alendar alendars alf alibrate alibrated \
     alibrates alibrating all allable alled aller allers alligraphy alling alllers allous \
     allously alls alm almed almer alming alms alves amaraderie ame amel amellia amellias \
     amels amera ameras amouflage amouflaged amouflages amouflaging amp ampaign ampaigns \
     amped amper ampfire ampfires amping ampings amps ampus an anal anals anaries anary \
     ancel ancelable ancelation ancellable ancellation ancellations ancelled ancelling \
     ancels ancer ancers andid andidate andidates andies andle andles andlestick andlesticks \
     andor andy ane anes annon annonball annonballs annons anoe anoes anopies anopy ans \
     antaloupe antaloupes antankerous antankerously anvas anvases anvass anvassed anvasses \
     anvassing anyon anyons ap apabilities apability apable apacities apacity ape apes \
     apital apitalism apitalization apitalize apitalized apitalizes apitalizing apitally \
     apitals apitulate apitulated apitulates apitulating apricious apriciously aps apsize \
     apsized apsizes apsizing aptain aptains aption aptions aptivate aptivated aptivates \
     aptivating aptive aptives aptivity apture aptured aptures apturing ar arafe arafes \
     aramel aramels aravan aravans arbon arbons ard ardboard ardboards ardigan ardigans ards \
     are ared areer areers arefree areful arefully areless arelessly arelessness ares aress \
     aressed aresses aressing argo argos aribou aribous aricature aricatured aricatures \
     aricaturing aring arnation arnations arnival arnivals arnivorous arnivorously arol \
     arols arouse aroused arousel arousels arouses arousing arpenter arpenters arpet arpets \
     arriage arriages arried arrier arries arrot arrots arry arrying ars art arton artons \
     artoon artoons arts arve arved arver arves arving asal ascadable ascade ascaded ascades \
     ascading ase aseless ases ash ashes ashew ashews ashier ashiers ashmere ashmeres asino \
     asinos asserole asseroles ast astanet astanets astigate astigated astigates astigating \
     asting astle astles asts asual asually at atalog atalogs atapult atapulted atapulting \
     atapults atastrophe atastrophes atch atches atching atchy ategories ategorization \
     ategorize ategorized ategorizes ategorizing ategory ater aterpillar aterpillars aters \
     aterwaul aterwauled aterwauling aterwauls atfish atfishes athedral athedrals ats attle \
     attles aught auldron auldrons auliflower auliflowers ausal ausally ause aused auses \
     ausing austic auterize auterized auterizes auterizing aution autioned autioning autions \
     autious autiously avalries avalry ave avern avernous avernously averns aves avities \
     avity avort avorted avorting avorts ease eased eases easing edar edars eiling eilings \
     elebrate elebrated elebrates elebrating elebration elebrations elebrities elebrity \
     eleries elery elestial elestially ell ellar ellars ellist ellists ello ellos ellphone \
     ellphones ells ement emented ementing ements emeteries emetery ensor ensors ensorship \
     ensure ensured ensures ensuring ensus ent enter enters entral entralize entralized \
     entralizes entralizing entrally ents enturies entury ereal ereals eremonial eremonially \
     eremonies eremony ertain ertainly ertainties ertainty ertificate ertificates ertified \
     ertifies ertify ertifying hafe hafed haff haffed haffing haffs hafing hain hainable \
     hained haining hains hair haired hairing hairman hairmen hairs halice halices halk \
     halks halky hallenge hallenged hallenges hallenging hamber hambers hameleon hameleons \
     hamomile hamomiles hampagne hampagnes hampion hampioned hampioning hampions hampionship \
     hampionships hance hancellor hancellors hances handelier handeliers hange hangeable \
     hanged hanges hanging hannel hanneling hannels hant hanted hanting hants haos haotic \
     hapel hapels haperone haperoned haperones haperoning hapter hapters har haracter \
     haracteristic haracteristics haracterize haracterized haracterizes haracterizing \
     haracters harge harged harger hargers harges harging hariot hariots harisma haritable \
     harities harity harm harmed harming harms harred harring hars hart harted harter \
     harting harts hase hased hases hasing haste hastise hastised hastises hastising hastity \
     hat hats hatted hatter hatting hauffeur hauffeured hauffeuring hauffeurs haves heap \
     heapen heapens heaper heapest heaply heat heated heating heats heck heckable hecked \
     hecker heckers hecking heckmate heckmated heckmates heckmating heckpoint heckpoints \
     hecks heddar heddars heek heeks heeky heer heered heerful heerfully heering heers heese \
     heeses heetah heetahs hef hefs hemical hemically hemicals hemist hemistries hemistry \
     hemists heque heques herish herished herishes herishing herries herry hess hesses hest \
     hestnut hestnuts hests hew hewed hewing hews hicken hickens hickpea hickpeas hide hided \
     hides hiding hief hiefly hiefs hiffon hiffons hild hildhood hildhoods hildish hildren \
     hilds hill hilled hilling hills hilly himney himneys himpanzee himpanzees hin hinchilla \
     hinchillas hins hip hipmunk hipmunks hipped hipping hips hirp hirped hirping hirps \
     hisel hisels hivalry hlorinate hlorinated hlorinates hlorinating hocolate hocolates \
     hoice hoices hoir hoirs hoke hoked hokes hoking holesterol holesterols hoose hooser \
     hoosers hooses hoosing hop hopped hopping hops hopstick hopsticks hord hords horeograph \
     horeographed horeographing horeographs horus hose hosen hristen hristens hronic \
     hronicle hronicled hronicles hronicling hronology hrysanthemum hrysanthemums hubby huck \
     hucked hucking huckle huckled huckles huckling hucks hurch hurches hurn hurned hurning \
     hurns icada icadas ider iders igarette igarettes inema inemas innamon innamons ircle \
     ircled ircles ircling ircuit ircuitous ircuitously ircuits ircular ircularly irculate \
     irculated irculates irculating irculation irculations ircumstance ircumstances \
     ircumvent ircumvented ircumventing ircumvents ircus itation itations ite ited ites \
     ities iting itizen itizens itizenship itizenships itric ity ivic ivil ivilian ivilians \
     ivilization ivilizations lack lacked lacking lacks laim laimed laiming laims lam lamber \
     lambers lammy lamor lamors lamp lamped lamping lamps lams landestine lang langed \
     langing langs lank lanked lanking lanks lap lapped lapping laps larified larifies \
     larify larifying larinet larinets larities larity lash lashed lashes lashing lasp \
     lasped lasping lasps lass lasses lassful lassic lassical lassically lassics lassified \
     lassifier lassifiers lassifies lassify lassifying lassless lassroom lassrooms latter \
     latters lause lauses law laws lay lays lean leaned leaner leaners leaning leanliness \
     leanly leans leanse leansed leanses leansing lear learance learances leared learer \
     learest learing learly learness lears leave leaved leaver leavers leaves leaving \
     lemency lench lenched lenches lenching lerk lerks lever leverer leverly leverness liche \
     lick lickable licked licking licks lient lients liff liffs limate limates limb limbed \
     limbing limbings limbs ling linging lings linic linical linics lip lipboard lipboards \
     lipped lipper lipping lips loak loaked loaking loaks lobber lobbered lobbering lobbers \
     lock locks lockwise log logged logging logs loister loisters lomp lomped lomping lomps \
     lonable lone loned lones loning lose losed losely loser loses losest loset losets \
     losing lot loth lothe lothed lothes lothing lothings loths lots lotted lotting loud \
     louded louding louds loudy lover lovers lown lowned lowning lowns loying lub lubs lue \
     lueless luelessly luelessness lues lumsily lumsy lung luster lustered lustering lusters \
     lutch lutched lutches lutching lutter luttered luttering lutters oach oached oaches \
     oaching oal oalesce oalesced oalesces oalescing oalition oalitions oals oarse oarsely \
     oarser oast oaster oasters oasts oat oats oax oaxed oaxes oaxing obble obbled obbler \
     obblers obbles obbling obra obras obweb obwebs ockatoo ockatoos ockpit ockpits ockroach \
     ockroaches ocktail ocktails ocky oconut oconuts ocoon ocoons oddle oddled oddles \
     oddling ode oded oder odes odfish odfishes odified odifies odify odifying oding oerce \
     oerced oerces oercing oexist oexisted oexistence oexisting oexists offee offeepot \
     offeepots offees offin offins ogent ohabit ohabitation ohabits oherent ohesion oil \
     oiled oiling oils oin oincide oincided oincidence oincidences oincides oinciding oined \
     oining oins olander olanders old older olds oliseum oliseums ollaborate ollaborated \
     ollaborates ollaborating ollaborative ollapse ollapsed ollapses ollapsing ollar ollars \
     ollatable ollate ollated ollateral ollates ollating olleague olleagues ollect ollected \
     ollecting ollection ollections ollective ollectively ollector ollectors ollects ollege \
     olleges ollide ollided ollides olliding ollision ollisions ollude olluded olludes \
     olluding ologne olognes olon olonel olonels olonial olonially olonies olonize olonized \
     olonizes olonizing olons olony olor olored olorful olorfully oloring olorize olorized \
     olorizes olorizing olors olossal olossally olumn olumns omb ombat ombative ombatively \
     ombats ombed ombination ombinations ombine ombined ombiner ombines ombing ombining ombs \
     ome omeback omedies omedy omely omes omet omets omfort omfortable omfortably omforted \
     omforting omforts omic omics oming ommand ommanded ommandeer ommandeered ommandeering \
     ommandeers ommander ommanders ommanding ommands ommemorate ommemorated ommemorates \
     ommemorating ommence ommenced ommencement ommences ommencing ommend ommendable ommended \
     ommending ommends omment ommented ommenting omments ommerce ommerces ommercial \
     ommercially ommiserate ommiserated ommiserates ommiserating ommission ommissioned \
     ommissioner ommissioners ommissioning ommissions ommit ommitment ommitments ommits \
     ommittable ommitted ommittee ommittees ommitter ommitters ommitting ommodities ommodity \
     ommon ommonest ommonly ommons ommotion ommunicate ommunicated ommunicates ommunicating \
     ommunication ommunications ommunities ommunity ommute";

const WORDS_C2: &'static str = "ommuted ommutes ommuting ompact ompacted ompacting ompactly ompacts ompanies ompanion \
     ompanions ompany omparable omparably ompare ompared ompares omparing omparison \
     omparisons ompartment ompartmentalize ompartmentalized ompartmentalizes \
     ompartmentalizing ompartments ompass ompasses ompassion ompassionate ompassions \
     ompatible ompatiblity ompatibly ompel ompelled ompelling ompels ompensate ompensated \
     ompensates ompensating ompensation ompensations ompete ompeted ompetent ompetes \
     ompeting ompetition ompetitions ompetitive ompetitively ompetitor ompetitors ompilable \
     ompilation ompilations ompile ompiled ompiler ompilers ompiles ompiling omplacency \
     omplacent omplain omplained omplaining omplains omplaint omplaints omplement \
     omplemented omplementing omplements omplete ompleted ompletely ompleteness ompleter \
     ompletes ompleting ompletion ompletions omplex omplexes omplexities omplexity ompliance \
     ompliances ompliant ompliation omplicated omplication omplications omplied omplier \
     omplies ompliment omply omplying omponent omponents ompose omposed omposer omposers \
     omposes omposing omposition ompositions ompost omposted omposting omposts omposure \
     ompound ompounded ompounding ompounds omprehend omprehended omprehending omprehends \
     omprehension omprehensions omprehensive omprehensively ompress ompressed ompresses \
     ompressing omprise omprised omprises omprising ompromise ompromised ompromises \
     ompromising ompulsory omputable omputation omputations ompute omputed omputer omputers \
     omputes omputing omradeship onceal oncealable oncealed oncealing onceals oncede onceded \
     oncedes onceding onceit onceited onceivable onceive onceived onceives onceiving \
     oncentrate oncentrated oncentrates oncentrating oncentration oncentrations oncept \
     onception onceptions oncepts onceptual onceptually oncern oncerned oncerning oncerns \
     oncert oncerts oncession oncessions onciliatory oncise oncisely onciseness onclude \
     oncluded oncludes oncluding onclusion onclusions oncoct oncocted oncocting oncocts \
     oncrete oncretes oncur oncurring oncurs ondemn ondemned ondemning ondemns ondense \
     ondensed ondenses ondensing ondescending ondition onditional onditioned onditioning \
     onditions ondolence ondone ondoned ondones ondoning ondor ondors onduct onducted \
     onducting onductor onductors onducts one ones onfer onference onferences onferred \
     onferring onfers onfess onfessed onfesses onfessing onfession onfessions onfide onfided \
     onfidence onfidences onfident onfidential onfidentiality onfidentially onfidently \
     onfides onfiding onfigurable onfiguration onfigurations onfigure onfigured onfigures \
     onfiguring onfine onfined onfinement onfines onfining onfirm onfirmation onfirmations \
     onfirmed onfirming onfirms onfiscate onfiscated onfiscates onfiscating onflict \
     onflicted onflicting onflicts onform onformed onforming onformity onforms onfound \
     onfounded onfounding onfounds onfront onfrontation onfrontations onfronted onfronting \
     onfronts onfuse onfused onfuses onfusing onfusion onfusions ongeal ongealed ongealing \
     ongeals ongenial ongenially ongestion ongratulate ongratulated ongratulates \
     ongratulating ongregate ongregated ongregates ongregating ongress ongresses onjure \
     onjured onjures onjuring onnect onnectable onnected onnecting onnection onnectionless \
     onnections onnects onnive onnived onnives onniving onquer onquers onquest onscience \
     onsciences onscientious onscientiously onscious onsciously onsciousness onsecrate \
     onsecrated onsecrates onsecrating onsecutive onsecutively onsensus onsent onsented \
     onsenting onsents onsequence onsequences onsequently onservation onservations \
     onservative onservatively onservatives onserve onserved onserves onserving onsider \
     onsiderable onsiderably onsideration onsiderations onsidered onsidering onsiders onsist \
     onsisted onsistencies onsistency onsistent onsistently onsisting onsists onsole onsoled \
     onsoles onsolidate onsolidated onsolidates onsolidating onsoling onsonant onsonants \
     onspiracies onspiracy onspire onspired onspires onspiring onstable onstables onstant \
     onstantly onstants onstitute onstituted onstitutes onstituting onstitution \
     onstitutional onstitutionally onstitutions onstrain onstrained onstraining onstrains \
     onstrict onstricted onstricting onstricts onstruct onstructed onstructing onstruction \
     onstructions onstructive onstructively onstructs onsult onsultant onsultants \
     onsultation onsultations onsulted onsulting onsults onsumable onsume onsumed onsumer \
     onsumers onsumes onsuming onsumption onsumptions ontact ontacted ontacting ontacts \
     ontagious ontagiously ontain ontained ontainer ontainerized ontainers ontaining \
     ontainment ontains ontaminate ontaminated ontaminates ontaminating ontemplate \
     ontemplated ontemplates ontemplating ontemporaries ontemporary ontempt ontemptible \
     ontempts ontend ontended ontender ontenders ontending ontends ontent ontented ontenting \
     ontentless ontentment ontents ontest ontested ontesting ontests ontext ontexts ontinent \
     ontinental ontinentally ontinents ontinuation ontinuations ontinue ontinued ontinues \
     ontinuing ontinuity ontinuous ontinuously ontort ontorted ontorting ontorts ontract \
     ontracted ontracting ontractor ontractors ontracts ontradict ontradicted ontradicting \
     ontradiction ontradictions ontradicts ontrary ontrast ontrasted ontrasting ontrasts \
     ontribute ontributed ontributes ontributing ontribution ontributions ontributor \
     ontributors ontrite ontrive ontrived ontrives ontriving ontrol ontrollable ontrolled \
     ontroller ontrollers ontrolling ontrols ontroversial ontroversially ontroversies \
     ontroversy onvalesce onvalesced onvalesces onvalescing onvene onvened onvenes \
     onvenience onveniences onvenient onveniently onvening onvention onventional \
     onventionally onventions onverge onverged onverges onverging onversation onversations \
     onverse onversed onverses onversing onversion onversions onvert onvertable onverted \
     onverter onverters onverting onverts onvey onveyed onveying onveys onvict onvicted \
     onvicting onviction onvictions onvicts onvince onvinced onvinces onvincing onvivial \
     onvivially onvoluted onvulse onvulsed onvulses onvulsing oo ooed ooes ooing ook ooked \
     ookie ookies ooking ooks ool ooled ooler ooling oolness ools ooperate ooperated \
     ooperates ooperating ooperation ooperations ooperative ooperatively oordinate \
     oordinated oordinates oordinating oordinator oordinators op ope oped opes opied opies \
     oping opious opiously opper oppers ops opy opyable opying opyright opyrightable \
     opyrighted opyrighting opyrights oral orals ord ordial ordially ordless ordon ordons \
     ords ore ores ork orks ormorant ormorants orn ornbread ornbreads orner orners \
     ornerstone ornfield ornfields ornflower ornflowers orns orny orporate orporation \
     orporations orpse orpses orral orrals orrect orrected orrecting orrection orrections \
     orrective orrectly orrectness orrects orrelate orrelated orrelates orrelating orrespond \
     orresponded orrespondence orrespondences orrespondent orrespondents orresponding \
     orresponds orridor orridors orroborate orroborated orroborates orroborating orrode \
     orroded orrodes orroding orrupt orrupted orrupting orruption orruptions orrupts orset \
     orsets osmic osset ossets ost osting ostlier ostly osts ostume ostumes ottage ottages \
     otton ottons ottonwood ottonwoods ouch ouches ougar ougars ough oughed oughing oughs \
     ould ouncil ouncils ounsel ounselor ounselors ounsels ount ounted ountenance \
     ountenanced ountenances ountenancing ounter ounterclockwise ounterfeit ounterfeited \
     ounterfeiting ounterfeits ounterpart ounterparts ounters ounties ounting ountless \
     ountlessly ountries ountry ountryside ountrysides ounts ounty ouple oupled ouples \
     oupling oupon oupons ourage ourageous ourageously ourages ourier ouriered ouriering \
     ouriers ourse oursed ourses oursing ourt ourted ourteous ourteously ourtesies ourtesy \
     ourting ourtroom ourtrooms ourts ourtyard ourtyards ousin ousins ove ovenant ovenants \
     over overage overages overed overing overs overt overtity oves ovet ovets ow oward \
     owardice owards owbell owbells owboy owboys ows oy oyote oyotes ozier ozy rab rabapple \
     rabapples rabby rabs rack racked racking rackle rackled rackles rackling racks radle \
     radles raft rafts raftsman raftsmanship raftsmen raggy ram ramer rammed ramming ramp \
     ramped ramping ramps rams ranberries ranberry rane ranes rank ranked ranking ranks \
     ranky rash rashed rasher rashers rashes rashing rass rate rater raters rates rave raved \
     raven raves raving rawl rawled rawler rawlers rawling rawls rayfish rayfishes rayon \
     rayons raziness razy reaky ream reameries reamery reams reamy rease reased reases \
     reasing reatable reate reated reates reating reation reations reative reatively \
     reativities reativity reator reators reature reatures redibilities redibility redible \
     redit redited rediting redits reed reek reeks reep reeping reeps reepy remate remated \
     remates remating repe repes rept rest restfallen rests rew rews rib ribs ricket rickets \
     ried ries rime rimes riminal riminally riminals rimp rimped rimping rimps rimson ringe \
     ringed ringes ringing ripple rippled ripples rippling rises risis risp rispy risscross \
     risscrossed risscrosses risscrossing riteria riterion riterions ritic ritical \
     riticality ritically riticism riticize riticized riticizes riticizing ritics roak \
     roaked roaking roaks rochet rochets rocodile rocodiles rocus rook rooked rooking rooks \
     rop rops roquet roquets ross rossbow rossbows rossed rosses rossing rossings rossroads \
     rossword rosswords rouch rouched rouches rouching row rowbar rowbars rowd rowded \
     rowding rowds rown rowned rowning rowns rows rucial rucially rude rudely ruel ruelly \
     ruelty ruise ruiser ruisers ruises rumb rumble rumbled rumbles rumbling rumbs rummy \
     rumple rumpled rumples rumpling runch runched runches runching rusade rusaded rusades \
     rusading rush rushed rushes rushing rust rusts rutch rutches ry rying rystal rystallize \
     rystallized rystallizes rystallizing rystally rystals ub ube ubes ubs ucumber ucumbers \
     uddle uddled uddles uddling uddly uff uffed uffer uffing ufflink ufflinks uffs uisine \
     uisines ulminate ulminated ulminates ulminating ulpable ultivate ultivated";

const WORDS_C3: &'static str = "ultivates ultivating ultural ulturally ulture ultures umbersome unning up upboard \
     upboards upcake upcakes ups urb urbed urbing urbs urd urdle urdled urdles urdling urds \
     ure ured ures urfew uring uriosities uriosity urious uriously url urled urling urls \
     urly urrant urrants urrencies urrency urrent urrently urrentness urrents urriculum \
     urriculums urse ursed urses ursing ursive ursory urt urtail urtailed urtailing urtails \
     urtain urtains urtsied urtsies urtsy urtsying urve urved urves urving ushion ushioned \
     ushioning ushions ustard ustards ustodies ustody ustom ustomarily ustomary ustomer \
     ustomers ustomize ustomized ustomizes ustomizing ustoms ut ute utlass utlasses uts \
     utting ycle ycled ycles ycling yclings yclone yclones ylinder ylinders ymbal ymbals \
     ynical ynically ynicism ypress ypresses";

const WORDS_D1: &'static str = "ab abbed abbing abble abbled abbles abbling abs ad addy ads affodil affodils agger \
     aggers ahlia ahlias aily ainty airies airy aisies aisy am amage amaged amages amaging \
     ame ames amn amned amning amns amp ampen ampened ampens ams ance anced ancer ancers \
     ances ancing andelion andelions anger angerous angerously angers angle angled angles \
     angling apper are ared ares aring ark arken arkened arkening arkens arker arkest arkly \
     arkness arling arlings arn arned arning arns art artboard artboards arted arting arts \
     ash ashed ashes ashing ashless ata atabase atabases atas ate ated ates ating aub aubed \
     aubing aubs aughter aughters awdle awdled awdles awdling awn awned awning awns ay \
     aydream aylight aylights ays aze azed azes azing azzle azzled azzles azzling ead eaden \
     eadens eadline eadlines eadlock eadlocks eadly eaf eal ealer ealers ealing eals ealt \
     ean eans ear eath eaths ebase ebased ebases ebasing ebatable ebate ebated ebates \
     ebating ebilitate ebilitated ebilitates ebilitating ebonair ebres ebris ebt ebts ebug \
     ebuggable ebugged ebugger ebuggers ebugging ebugs ebunk ebunked ebunking ebunks ebut \
     ebuts ecade ecadent ecades ecant ecanted ecanting ecants ecay ecayed ecaying ecays \
     eceit eceitful eceitfully eceive eceived eceives eceiving ecember ecency ecent ecently \
     eceptive eceptively ecidable ecide ecided ecides eciding ecimate ecimated ecimates \
     ecimating ecipher eciphered eciphering eciphers ecisive ecisively eck eckchair \
     eckchairs ecked ecker eckers ecking ecks eclaration eclarations eclare eclared eclares \
     eclaring ecline eclined eclines eclining eclutter eclutters ecode ecoded ecoder ecoders \
     ecodes ecoding ecompose ecomposed ecomposes ecomposing ecompress ecompressed \
     ecompresses ecompressing econtaminate econtaminated econtaminates econtaminating \
     ecorate ecorated ecorates ecorating ecoration ecorations ecorative ecorum ecouple \
     ecoupled ecouples ecoupling ecrease ecreased ecreases ecreasing ecree ecreed ecreeing \
     ecrees ecrepit ecrypt ecryptable ecrypted ecrypting ecrypts edicate edicated edicates \
     edicating edication edications educe educed educes educing educt educted educting \
     educts eed eeds eem eemed eeming eems eep eepen eepened eepening eepens eeper eepest \
     eeply eer eers eescalate eescalated eescalates eescalating eface efaced efaces efacing \
     efame efamed efames efaming efault efaulted efaulting efaults efeat efeated efeating \
     efeats efect efected efecting efective efectively efects efend efendant efendants \
     efended efender efenders efending efends efense efenses efensive efensively \
     efensiveness efer eferential eferentially eferrable eferred eferring efers efiance \
     efiant eficiencies eficiency eficit eficits efied efies efinable efine efined efiner \
     efines efining efinite efinitely efinition efinitions eflate eflated eflates eflating \
     eflect eflected eflecting eflects eforest eforestation eforested eforesting eforests \
     eform eformed eforming eforms efraud efrauded efrauding efrauds efrost efrosted \
     efrosting efrosts eft efuse efused efuses efusing efy efying egenerate egenerated \
     egenerates egenerating egradation egrade egraded egrades egrading egree egrees ehydrate \
     ehydrated ehydrates ehydrating eified eifies eify eifying eign eigned eigning eigns \
     ejected elay elayed elaying elays elegate elegated elegates elegating elegation \
     elegations elete eleted eleter eletes eleting eliberate eliberated eliberately \
     eliberates eliberating elicate elicious eliciously elight elighted elightful \
     elightfully elighting elights elineate elineated elineates elineating elinquent \
     elirious eliriously elirium eliver eliverable elivered eliveries elivering elivers \
     elivery elude eluded eludes eluding elve elved elves elving emand emanded emanding \
     emands emean emeaned emeaning emeans emise emocracies emocracy emocratic emolish \
     emolished emolishes emolishing emon emons emonstrate emonstrated emonstrates \
     emonstrating emonstration emonstrations emoralize emoralized emoralizes emoralizing \
     emote emoted emotes emoting emure emystified emystifies emystify emystifying en enial \
     enials enied enies enigrate enigrated enigrates enigrating enotation enote enoted \
     enotes enoting enounce enounced enounces enouncing ens ense ensely enser ensities \
     ensity ent ented enting entist entists ents eny enying eodorant eodorants eodorize \
     eodorized eodorizes eodorizing epart eparted eparting epartment epartments eparts \
     eparture epartures epend ependable epended ependence ependences ependent epender \
     epending epends epict epicted epicting epicts eplete epleted epletes epleting eplorable \
     eploy eployable eployed eploying eployment eployments eploys eport eported eporting \
     eports epose eposed eposes eposing eposit eposited eposits epraved epravity eprecate \
     eprecated eprecates eprecating epreciate epreciated epreciates epreciating epress \
     epressed epresses epressing epression epressions eprivation eprive eprived eprives \
     epriving epth epths eputies eputize eputized eputizes eputizing eputy erail erailed \
     erailing erails erelict eride erided erides eriding erision erivation erivations erive \
     erived erives eriving errick erricks esalinate esalinated esalinates esalinating escend \
     escended escender escending escends escent escents escribe escribed escribes escribing \
     escription escriptions esecrate esecrated esecrates esecrating esensitize esensitized \
     esensitizes esensitizing esert eserted eserting eserts eserve eserved eserves eserving \
     esiccate esiccated esiccates esiccating esign esignate esignated esignates esignating \
     esignation esignations esigned esigner esigners esigning esigns esirable esire esired \
     esires esiring esk esks esktop esolation espair espaired espairing espairs esperate \
     esperately espicable espise espised espises espising espite espoil espoiled espoiling \
     espoils espondent essert esserts estabilize estabilized estabilizes estabilizing \
     estination estinations estinies estiny estitute estroy estroyed estroyer estroying \
     estroys estruction estructions estructive estructively etach etachable etached etaches \
     etaching etachment etail etailed etailing etails etain etained etaining etains etect \
     etectable etected etecting etective etectives etects etention etentions eter eteriorate \
     eteriorated eteriorates eteriorating eterminable etermination eterminations etermine \
     etermined etermines etermining eters etest etested etesting etests etonate etonated \
     etonates etonating etour etoured etouring etours evalue evalued evalues evaluing \
     evastate evastated evastates evastating evelop eveloper evelopers eveloping evelopment \
     evelopmental evelopments evelopped evelops eviate eviated eviates eviating evice evices \
     evil evils evious eviously eviousness evise evised evises evising evote evoted evotes \
     evoting evotion evour evoured evouring evours evout ew ewdrop ewdrops ews exterity \
     exterous exterously iabolical iabolically iagnose iagnosed iagnoses iagnosing iagnosis \
     iagram iagrams ial ialect ialects ialed ialing ialogue ialogues ials iameter iameters \
     iamond iamonds iaper iapers iaries iary ice ices ictate ictated ictates ictating \
     ictionaries ictionary id idactic ie ied ies iet iets iffer iffered ifference ifferences \
     ifferent ifferentiate ifferentiated ifferentiates ifferentiating ifferently iffering \
     iffers ifficult ifficulties ifficulty iffident iffuse iffused iffuses iffusing ig iger \
     igest igested igesting igests igging igital igitally ignified ignifies ignify ignifying \
     ignities ignity igress igressed igresses igressing igs iing ilapidated ilate ilated \
     ilates ilating ilemma ilemmas iligence iligent iligently ilute iluted ilutes iluting im \
     ime imension imensional imensions imes iminish iminished iminishes iminishing imly \
     immed imming ims ine ined ines inghies inghy ingo ingos ingy ining inner inners inosaur \
     inosaurs ip iploma iplomacy iplomas iplomat iplomatic iplomats ipped ipper ippers \
     ipping ips ire irect irected irecting irection irectional irections irective irectly \
     irector irectors irects irt irtiness irts irty isabilities isability isable isabled \
     isabledness isablement isables isabling isadvantage isadvantages isagree isagreeable \
     isagreed isagreeing isagreement isagreements isagrees isallow isallowed isallowing \
     isallows isappear isappearance isappeared isappearing isappears isappoint isappointed \
     isappointing isappoints isapprove isapproved isapproves isapproving isarm isarmed \
     isarming isarms isarray isassemble isassembly isassociate isaster isasters isastrous \
     isastrously isavow isavowed isavowing isavows isband isbanded isbanding isbands \
     isbelief isbelieve isbelieved isbelieves isbelieving isburse isbursed isburses \
     isbursing iscard iscardable iscarded iscarding iscards iscern iscerned iscerning \
     iscerns ischarge ischarged ischarges ischarging iscipline isciplined isciplines \
     isciplining isclaim isclose isclosed iscloses isclosing isclosure isclosures iscolor \
     iscolors iscomfort iscomforted iscomforting iscomforts isconnect isconnected \
     isconnecting isconnection isconnects iscontinue iscontinued iscontinues iscontinuing \
     iscontinuous iscord iscordant iscount iscounted iscounting iscounts iscourage \
     iscouraged iscourages iscouraging iscourse iscourses iscover iscoverable iscovered \
     iscoveries iscovering iscovers iscovery iscredit iscredits iscreet iscretion \
     iscriminate iscriminated iscriminates iscriminating iscrimination iscriminations iscuss \
     iscussed iscusses iscussing iscussion iscussions isease iseases isembark isembarked \
     isembarking isembarks isenchant isenchanted isenchanting isenchants isengage isengaged \
     isengages isengaging isentangle isentangled isentangles isentangling isfigure isfigured \
     isfigures isfiguring isgorge isgorged isgorges isgorging isgrace isgruntled isguise \
     isguised isguises isguising isgust isgusted isgusting isgusts ish ishcloth ishcloths \
     ishearten isheartens ishes isheveled ishonest isinfect isinfected isinfecting isinfects \
     isingenuous isingenuously isinherit isinherits isintegrate isintegrated isintegrates \
     isintegrating isjoint isk isks islike isliked islikes isliking islocate islocated \
     islocates islocating islodge islodged islodges islodging ismal ismally ismantle \
     ismantled";

const WORDS_D2: &'static str = "ismantles ismantling ismay ismayed ismaying ismays ismember ismembers ismiss ismissal \
     ismissals ismissed ismisses ismissing ismount ismounted ismounting ismounts isobedient \
     isobey isobeyed isobeying isobeys isorder isorderly isorders isown isowned isowning \
     isowns isparage isparaged isparages isparaging isparate isparity ispassionate ispatch \
     ispatched ispatcher ispatches ispatching ispel ispels ispense ispensed ispenses \
     ispensing isperse ispersed isperses ispersing isplay isplayable isplayed isplaying \
     isplays isposable isposal isposals ispose isposed isposes isposing isposition ispossess \
     ispossessed ispossesses ispossessing isprove isproved isproves isproving ispute isputed \
     isputes isputing isqualified isqualifies isqualify isqualifying isregard isregarded \
     isregarding isregards isreputable isrupt isrupted isrupting isruptive isrupts issect \
     issected issecting issects isseminate isseminated isseminates isseminating issent \
     issented issenting issents issipate issipated issipates issipating issolute issolve \
     issolved issolves issolving issuade issuaded issuades issuading istance istances istant \
     istend istended istending istends istill istilled istilling istills istinct istinction \
     istinctions istinguish istinguishable istinguished istinguishes istinguishing istort \
     istorted istorting istortion istortions istorts istract istracted istracting istracts \
     istress istresses istributable istribute istributed istributes istributing istribution \
     istributions istrict istricts istrust isturb isturbance isturbances isturbed isturbing \
     isturbs itch itches ive ived iverge iverged iverges iverging iverse iversities iversity \
     ivert iverted iverting iverts ives ivide ivided ividend ividends ivider ivides ividing \
     ivine iving ivision ivisions ivorce ivorced ivorces ivorcing ivulge ivulged ivulges \
     ivulging izzy ocile ock ocked ocker ocking ocks octor octors octrine octrines ocument \
     ocumentaries ocumentary ocumentation ocumentations ocumented ocumenting ocuments odge \
     odged odges odging oes og oghouse oghouses ogma ogmatic ogs ogwood ogwoods oing ole \
     oled oleful olefully oles oling oll ollar ollars olls olphin olphins omain omains ome \
     omes omestic omesticate omesticated omesticates omesticating ominant ominate ominated \
     ominates ominating omineer omineered omineering omineers ominoes onate onated onates \
     onating onation onations one onkey onkeys onor onors oodle oodled oodles oodling oom \
     oomed ooming ooms oor oorbell oorbells oorknob oorknobs oormat oormats oors oorstep \
     oorsteps ormant ormitories ormitory ose oses ot ote oted otes oting otless ots otted \
     otting ouble oubled oubles oubling oubly oubt oubted oubtful oubtfully oubting oubts \
     ough oughnut oughnuts oughs ouse oused ouses ousing ove oves ovetail ovetails owdy own \
     ownfall ownload ownloads ownpour ownstairs owntime owntimes owntown ownward owse owsed \
     owses owsing oze ozed ozen ozens ozes ozing rab raconian raft rafted rafter rafting \
     rafts rag raggable ragged ragging ragon ragonflies ragonfly ragons rags rain rained \
     raining rains rama ramas ramatic ramatically ramatize ramatized ramatizes ramatizing \
     rank rape raped rapes raping rastic rastically raw rawable rawback rawbacks rawbridge \
     rawbridges rawer rawers rawing rawings rawl rawled rawling rawls rawn raws read readed \
     readful readfully reading reads ream reamed reaming reams reamt reary redge redged \
     redges redging rench renched renches renching ress ressed resser ressers resses ressing \
     rew ribble ribbled ribbles ribbling ried rier ries rift rifted rifting rifts riftwood \
     riftwoods rill rilled rilling rills rink rinking rinks rip ripped ripping rips rive \
     riven river rivers rives riveway riveways riving rizzle rizzled rizzles rizzling roll \
     romedaries romedary rool rooled rooling rools roop rooped rooping roops rop ropped \
     ropping rops rought roughts rove rown rowned rowning rowns rowse rowsed rowses \
     rowsiness rowsing rowsy rub rubbed rubbing rubs rudgery rug rugs rum rummed rumming \
     rums rumstick rumsticks runk ry rying ual ually ubious ubiously uck ucked ucking \
     uckling ucklings ucks ue ug ugout ugouts uke ukes ull umb umber umbly ump umpable umped \
     umper umpers umping umpling umplings umps umpy ungeon ungeons upe uped upes uping \
     uplicate uplicated uplicates uplicating urable uration urations uress uring usk usks \
     usky ust usted usting ustpan ustpans usts usty uties utiful utifully uty warf warfed \
     warfing warfish warves well welling wellings wells welt windle windled windles windling \
     ye yed yeing yes ynamic ynamically ynamo ynamos ynasty";

const WORDS_E1: &'static str = "ach ager agerly agerness agle agles ar arlier arliest arly arn arned arnest arnestly \
     arning arnings arns arphone arphones arring arrings ars arth arthquake arthquakes arths \
     arthworm arthworms arthy ase ased asel asels ases asier asiest asily asing ast asts asy \
     at aten ating ats avesdrop avesdropped avesdroppers avesdropping avesdrops bb bbed \
     bbing bbs bullient ccentric cho choed choes choing clipse clipsed clipses clipsing \
     cological cologically conomic conomics conomies conomist conomists conomize conomized \
     conomizes conomizing conomy cstasy cstatic dge dges dgy dible dified difies dify \
     difying dit ditable dited dition ditions ditor ditors dits ditting ducate ducated \
     ducates ducating ducation ducational ducationally ducations ducator ducators el els \
     erie fface ffaced ffaces ffacing ffect ffected ffecting ffective ffectively \
     ffectiveness ffectless ffects ffervescent fficacy fficiencies fficiency fficient \
     fficiently ffort fforts ffuse ffused ffuses ffusing ffusive ffusively gg gged gger \
     gging ggplant ggplants ggs ggshell ggshells go gos gregious gregiously ight ighteen \
     ighteenth ighth ighty ither ject jected jecting jects laborate laborated laborates \
     laborating lapse lapsed lapses lapsing lastic late lated lates lating lbow lbows lder \
     lderberries lderberry lderly lders ldest lect lected lecting lection lections lectric \
     lectrical lectrically lectrician lectricians lectricities lectricity lectrified \
     lectrifies lectrify lectrifying lectrocute lectrocuted lectrocutes lectrocuting lectron \
     lectronic lectronically lectrons lects legance legances legant legantly lement \
     lementary lements lephant lephants levate levated levates levating levator levators \
     leven leventh lf licit licited liciting licits ligible liminate liminated liminates \
     liminating lite lites lk lks longate longated longates longating lope loped lopes \
     loping loquence loquent lse lsewhere lude luded ludes luding lusive lusively lves \
     maciate maciated maciates maciating mail mailed mailing mails manate manated manates \
     manating mancipate mancipated mancipates mancipating masculate masculated masculates \
     masculating mbalm mbalmed mbalming mbalms mbargo mbargoes mbark mbarked mbarking mbarks \
     mbarrass mbarrassed mbarrasses mbarrassing mbarrassment mbassies mbassy mbed mbeddable \
     mbedded mbedder mbedders mbedding mbeds mbellish mbellished mbellishes mbellishing \
     mbellishments mbezzle mbezzled mbezzles mbezzling mbitter mbitters mblazon mblazons \
     mbodied mbodies mbodiments mbody mbodying mbolden mboldened mboldening mboldens mboss \
     mbossed mbosses mbossing mbrace mbraced mbraces mbracing merald meralds merge merged \
     mergencies mergency merges merging migrate migrated migrates migrating minent mit mits \
     mitted mitter mitters mitting mote moted motes moting motion motional motionally \
     motions mpathy mperor mperors mphases mphasis mphasize mphasized mphasizes mphasizing \
     mpire mpires mpirical mpirically mploy mployed mployee mployees mployer mployers \
     mploying mployment mployments mploys mpower mpowered mpowers mptied mpties mptiness \
     mpty mptying mu mulate mulated mulates mulating mus nable nabled nablement nabler \
     nables nabling nact nacted nacting nacts namor namored namors ncamp ncamped ncamping \
     ncamps ncase ncased ncases ncasing nchant nchanted nchanting nchants ncircle ncircled \
     ncircles ncircling nclose nclosed ncloses nclosing nclosure nclosures ncodable ncode \
     ncoded ncoder ncoders ncodes ncoding ncompass ncompassed ncompasses ncompassing \
     ncounter ncountered ncountering ncounters ncourage ncouraged ncouragement ncouragements \
     ncourages ncouraging ncroach ncroached ncroaches ncroaching ncrust ncrusted ncrusting \
     ncrusts ncumber ncumbered ncumbers ncyclopedia ncyclopedias nd ndanger ndangers ndear \
     ndeared ndearing ndears nded nding ndless ndlessly ndorse ndorsed ndorsement \
     ndorsements ndorses ndorsing ndow ndowed ndowing ndows nds ndurance ndure ndured ndures \
     nduring nemies nemy nergetic nergies nergize nergized nergizes nergizing nergy nfold \
     nfolded nfolding nfolds nforce nforceable nforced nforcement nforcements nforces \
     nforcing ngage ngaged ngagement ngagements ngages ngaging ngender ngendered ngenders \
     ngine ngineer ngineered ngineering ngineerings ngineers ngines ngrave ngraved ngraves \
     ngraving ngross ngrossed ngrosses ngrossing ngulf ngulfed ngulfing ngulfs nhance \
     nhanced nhancement nhancements nhances nhancing nigmatic njoin njoined njoining njoins \
     njoy njoyed njoying njoyment njoys nlarge nlarged nlarges nlarging nlighten nlightened \
     nlightening nlightenment nlightens nlist nlisted nlisting nlistment nlistments nlists \
     nliven nlivens nmesh nmeshed nmeshes nmeshing nmity nnoble nnobled nnobles nnobling \
     normous normously nough nrage nraged nrages nraging nrapture nraptured nraptures \
     nrapturing nrich nriched nriches nriching nroll nrolled nrolling nrollment nrollments \
     nrolls nshrine nshrined nshrines nshrining nslave nslaved nslaves nslaving nsnare \
     nsnared nsnares nsnaring nsue nsued nsues nsuing nsure nsured nsures nsuring ntail \
     ntailed ntailing ntails ntangle ntangled ntanglement ntanglements ntangles ntangling \
     nter ntered ntering nterprise nterprises nterprising nters ntertain ntertained \
     ntertaining ntertainment ntertainments ntertains nthrall nthralled nthralling nthralls \
     nthuse nthused nthuses nthusiasm nthusiasms nthusiastic nthusing ntice nticed ntices \
     nticing ntire ntirely ntities ntitle ntitled ntitlement ntitlements ntitles ntitling \
     ntity ntomb ntombed ntombing ntombs ntourage ntrance ntranced ntrances ntrancing ntreat \
     ntreated ntreating ntreats ntrench ntrenched ntrenches ntrenching ntrepreneur \
     ntrepreneurs ntries ntrust ntrusted ntrusting ntrusts ntry numerate numerated numerates \
     numerating nunciate nunciated nunciates nunciating nvelop nvelope nveloped nvelopes \
     nveloping nvelops nviable nvied nvies nvironment nvironmental nvironmentally \
     nvironments nvisage nvisaged nvisages nvisaging nvision nvisioned nvisioning nvisions \
     nvy nvying phemeral phemerally pidemic pisode pisodes poch pochs quable qual qualing \
     qualities quality qualize qualized qualizes qualizing qually quals quate quated quates \
     quating quation quations quip quipment quipments quipped quips quities quity quivalent \
     quivalently quivalents quivocate quivocated quivocates quivocating ra radicate \
     radicated radicates radicating ras rase rased raser rasers rases rasing rect rected \
     recting rects rode roded rodes roding rosion rr rratic rred rring rroneous rroneously \
     rror rrors rrs rudite rupt rupted rupting rupts scalate scalated scalates scalating \
     scapable scape scaped scapes scaping scort scorted scorting scorts soteric specially \
     spionage spouse spoused spouses spousing spresso spressos ssay ssays ssence ssences \
     ssential ssentially stablish stablished stablishes stablishing stablishment \
     stablishments state states stimate stimated stimates stimating stranged ternal ternally \
     thical thically thics thnic thos tiquette ucalyptus uphoria uphoric uro uros vacuate \
     vacuated vacuates vacuating vacuation vade vaded vades vading valuate valuated valuates \
     valuating valuation valuations vaporate vaporated vaporates vaporating vasive vasively \
     ven vening venings venly vens vent vents ventual ventually ver very verybody veryday \
     veryone verything verywhere vict victed victing victs vidence vidences vident vidently \
     vil vils vince vinced vinces vincing voke voked vokes voking volution volutions volve \
     volved volves volving we wes xacerbate xacerbated xacerbates xacerbating xact xactly \
     xactness xaggerate xaggerated xaggerates xaggerating xalt xalted xalting xalts xam \
     xamination xaminations xamine xamined xamines xamining xample xamples xams xasperate \
     xasperated xasperates xasperating xcavate xcavated xcavates xcavating xceed xceeded \
     xceeding xceeds xcel xcellence xcellences xcellent xcels xcept xception xceptional \
     xceptionally xceptions xcess xcesses xcessive xcessively xchange xchanged xchanges \
     xchanging xcise xcised xcises xcising xcite xcited xcitement xcitements xcites xciting \
     xclaim xclaimed xclaiming xclaims xclude xcluded xcludes xcluding xclusion xclusions \
     xclusive xclusively xclusiveness xclusivity xcommunicate xcommunicated xcommunicates \
     xcommunicating xcrete xcreted xcretes xcreting xculpate xculpated xculpates xculpating \
     xcuse xcused xcuses xcusing xecutable xecute xecuted xecutes xecuting xecutive \
     xecutives xemplary xemplified xemplifies xemplify xemplifying xempt xemptable xempted \
     xempting xempts xercise xercised xercises xercising xert xerted xerting xerts xhale \
     xhaled xhales xhaling xhaust xhausted xhausting xhaustive xhaustively xhausts xhibit \
     xhibited xhibiting xhibition xhibitions xhibits xhort xhorted xhorting xhorts xile \
     xiled xiles xiling xist xisted xistence xistences xisting xists xit xited xiting xits \
     xodus xonerate xonerated xonerates xonerating xorbitant xotic xpand xpanded xpander \
     xpanders xpanding xpands xpansion xpansions xpansive xpansively xpatriate xpatriated \
     xpatriates xpatriating xpect xpectation xpectations xpected xpecting xpects xpedient \
     xpedite xpedited xpedites xpediting xpedition xpeditions xpel xpels xpense xpenses \
     xpensive xpensively xperience xperienced xperiences xperiencing xperiment xperimental \
     xperimentally xperimentation xperimented xperimenting xperiments xpert xpertise \
     xpertises xperts xpiate xpiated xpiates xpiating xpiration xpirations xpire xpired \
     xpires xpiring xplain xplained xplaining xplains xplanation xplanations xplicit \
     xplicitly xplicitness xplode xploded xplodes xploding xploit xploitable xploitation \
     xploited xploiting xploits xploration xplore xplored xplorer xplorers xplores xploring \
     xplosion xplosions xport xportable xported xporter xporters xporting xports xpose \
     xposed xposes xposing xposure xposures xpound xpounded xpounding xpounds xpress \
     xpressed xpresses xpressing xpression xpressions xpressive xpunge xpunged xpunges \
     xpunging xquisite xtend xtendable xtended xtender xtending xtends xtension xtensionless \
     xtensions xtensive xtensively xtent xtents xterminate xterminated xterminates \
     xterminating xternal xternalized xternally xtinction xtinguish xtinguished";

const WORDS_E2: &'static str = "xtinguishes xtinguishing xtol xtols xtort xtorted xtorting xtorts xtra xtract \
     xtractable xtracted xtracting xtracts xtradite xtradited xtradites xtraditing \
     xtraordinarily xtraordinary xtrapolate xtrapolated xtrapolates xtrapolating xtreme \
     xtremely xtremes xuberant xude xuded xudes xuding xult xulted xulting xults ye yebrow \
     yebrows yelash yelashes yes";

const WORDS_F: &'static str = "able ables abric abricate abricated abricates abricating abrics abulous abulously ace \
     aced aces acet acetious acetiously acets acial acially acilitate acilitated acilitates \
     acilitating acilities acility acing act actor actorial actories actorize actorizing \
     actors actory acts aculties aculty ade aded ades ading ail ailed ailing ails ailure \
     ailures aint ainted aintest ainting aints air airies airly airness airy aith aithful \
     aithfully aiths ake aked akes aking alcon alcons all allen alling alls alse alsely \
     alsified alsifies alsify alsifying alter alters ame ames amiliar amiliarities \
     amiliarity amiliarize amiliarized amiliarizes amiliarizing amilies amily amine amish \
     amished amishes amishing amous amously an anatical anatically ancied ancier ancies \
     anciful ancifully ancy ancying anfare anned anning ans antasies antastic antastically \
     antasy ar arcical arcically are ares arewell arewells arm armer armers arms arther \
     arthest ascinate ascinated ascinates ascinating ashion ashioned ashioning ashions ast \
     asten astens aster astest astidious astidiously astly at atal atally ate ateful \
     atefully ates ather atherly athers athom athomless athomlessly athoms atigue atigues \
     ats atten attening attens aucet aucets ault aults avor avorable avorably avored avoring \
     avorite avoritism avors awn awned awning awns ax axed axes axing ear eared earful \
     earfully earing earless earlessly ears easible easibly east easted easting easts eather \
     eathers eature eatured eatureful eatures eaturing ebruary ed ederal ederally ederation \
     ederations ee eeble eed eedback eedbacks eeder eeding eeds eel eeling eelings eels ees \
     eet eign eigned eigning eigns eisty elicitous elicitously ell ellow ellows ellowship \
     elony elt emale emales eminine ence enced ences encing end ended ending ends eral \
     erally erment ermented ermenting erments ern erns erret errets erries erry ertile \
     ervent ervor ester esters estival estivals estive estively etch etched etcher etches \
     etching etid etter etters ever everish evers ew ewer ewest iasco iber ibers ickle \
     iction ictions ictitious ictitiously iddle iddled iddles iddling idelity idget idgeting \
     idgets ield ieldmouse ieldmouses ields iendish ierce iery ifteen ifteenth ifth iftieth \
     ifty ig ight ighter ighters ighting ights igs igure igured igures iguring ilch ilched \
     ilches ilching ile iled iles ilial ilially iling ill illed iller illers illing ills ilm \
     ilmed ilming ilms ilter iltered iltering ilters ilthy inagle inagled inagles inagling \
     inal inalization inalize inalized inalizer inalizers inalizes inalizing inally inance \
     inanced inances inancial inancially inancing inch inches ind indable inder inders \
     inding indings inds ine ined inely iner ines inesse inest inger ingers inicky ining \
     inish inished inishes inishing inite ire irecracker irecrackers ired irefighter \
     irefighters ireflies irefly ireman iremen ireplace ireplaces irer ires irewood irewoods \
     iring irm irmer irmly irms irst iscal iscally ish ishbowl ishbowls ished isher isherman \
     ishermen ishes ishing ishings ist ists it itful itfully itness its itted itting ive ix \
     ixable ixation ixations ixed ixer ixers ixes ixing izz izzed izzes izzing jord jords \
     labbergast labbergasted labbergasting labbergasts lag lagpole lagpoles lagrant lags \
     lail lailed lailing lails lair lake laked lakes lakiness laking laky lakyness lamboyant \
     lame lames lamingo lamingos lannel lannels lap lapjack lapjacks lapped lapping laps \
     lare lared lares laring lash lashed lashes lashing lashlight lashlights lask lasks lat \
     latbread latbreads latness lats latten lattened lattener lattening lattens latter \
     latters lattery launt launted launting launts lavor lavors law lawless lawlessly laws \
     lay layed laying lays lea leas led ledgling ledglings lee leece leeced leeces leecing \
     leeing lees leet leets lesh leshes lew lex lexed lexes lexible lexibly lexing lick \
     licked licker lickering lickers licking licks lies light lights limsy linch linched \
     linches linching ling linging lings lip lippant lipped lipper lippers lipping lips lirt \
     lirted lirting lirts loat loated loating loats lock locked locking locks log logged \
     logging logs lood looded looding loodlight loodlights loods loor loors lorid lounder \
     lounders lour lourish lourished lourishes lourishing lours lout louted louting louts \
     low lowed lower lowerpot lowerpots lowers lowing lown lows lu luctuate luctuated \
     luctuates luctuating luent luff luffed luffing luffs luffy luid luids lummox lummoxed \
     lummoxes lummoxing lung lus lush lushed lushes lushing luster lustered lusters lute \
     lutes lutter lutters ly lying oal oals oam oamed oaming oams ocus ocusable ocused \
     ocuses ocusing og ogal ogged ogging oggy oghorn oghorns ogs oil oiled oiling oils oist \
     oisted oisting oists old olded older olders olding olds olk olklore olks ollow ollowed \
     ollower ollowers ollowing ollows oment omented omenting oments ond ondle ondled ondles \
     ondling ood oods ool ooled ooling oolish oolishly oolishness ools oot ootball ootballs \
     ootbridge ootbridges ootpath ootpaths oots ootstep ootsteps ootstool ootstools or orage \
     oraged orages oraging orbade orbid orbidden orbidding orbids orce orced orceful \
     orcefully orces orcing orecast orecasting orecasts orehead oreheads oreign oresaw \
     oresee oreseeable oreseeing oreseen oresees oresight orest orestall orestalled \
     orestalling orestalls orests oretold orewarn orewarned orewarning orewarns orfeit \
     orfeited orfeiting orfeits orgave orge orged orges orget orgets orgetting orging orgive \
     orgiven orgiveness orgives orgiving orgo orgoed orgoes orgoing orgot orgotten ork orked \
     orking orklift orklifts orks orlorn orm ormal ormalism ormality ormalize ormalized \
     ormalizes ormalizing ormally ormat ormation ormations ormats ormed ormer ormerly \
     ormidable orming orms ormula ormulas ormulate ormulated ormulates ormulating orsake \
     orsaken orsakes orsaking orsook ort orth orthright ortieth ortified ortifies ortify \
     ortifying ortitude ortress ortresses orts ortuitous ortuitously ortunate ortunately \
     ortune ortunes orty orum orums orward ossil ossilize ossilized ossilizes ossilizing \
     ossils oster osters ought oul ound oundation oundations ounded ounder ounders ounding \
     ounds ountain ountains our ourteen ourteenth ourth ox oxes oxglove oxgloves raction \
     ractional ractions ractious ractiously racture ractured ractures racturing ragile \
     ragility ragment ragments ragrant rail rame ramed rames ramework rameworks raming \
     ranchise ranchises rank rankly rantic raternize raternized raternizes raternizing raud \
     rauds raudulent raudulently ray rayed raying rays reakish reckled ree reed reedom \
     reedoms reeing reely reer rees reeway reeways reeze reezer reezers reezes reezing \
     reight reighter reighters reights renzy requencies requency requent requented \
     requenting requently requents resh reshest reshly reshness ret retful retfully rets \
     retted retting riction riday ridge ridges ried riend riendliness riendly riends \
     riendship riendships ries rigate rigates righten rightened rightening rightens rigid \
     rilly risk risked risking risks risky ritter ritters rivolous rivolously rizz rizzed \
     rizzes rizzing rog rogs rolic rolics rom ront rontier rontiers rontness ronts rost \
     rostbite rostbites rosted rosting rosts rosty rothy rown rowned rowning rowns roze \
     rozen rugal rugality rugally ruit ruitcake ruitcakes ruitful ruitfully ruitless ruits \
     rumpy rustrate rustrated rustrates rustrating rustration rustrations ry rying uchsia \
     uchsias udge udged udges udging uel ueled ueling uels ulfill ulfilled ulfilling \
     ulfillment ulfills ull uller ullest ullness ully ulminate ulminated ulminates \
     ulminating ulsome umble umbled umbles umbling umigate umigated umigates umigating un \
     unction unctional unctionalities unctionality unctionally unctionless unctions und \
     undamental undamentally unded unding unds uneral unerals ungi ungus unnel unnels unny \
     uns ur uries urious uriously url urled urling urls urnace urnaces urnish urnished \
     urnishes urnishing urniture urnitures urrow urrowed urrowing urrows urs urther \
     urthermore urthest urtive urtively ury use used user uses using uss ussed usses ussing \
     utile uture utures uzzy";

const WORDS_G: &'static str = "abble abbled abbles abbling adget adgets ag agged agging ags aiety ain ained aining \
     ains alaxies alaxy ale ales allant allantry alleon alleons alleries allery allon allons \
     allop allops alore alvanize alvanized alvanizes alvanizing amal amble ambled ambles \
     ambling ame ames ander anders ang angs ap aps arage arages arbage arbages arble arbled \
     arbles arbling arden ardener ardeners ardenia ardenias ardens argantuan argle argled \
     argles argling argoyle argoyles arish arland arlands arlic arlics arner arners arnish \
     arnished arnishes arnishing arrison arrisons arrulous arrulously arter arters as asp \
     asped asper asping asps ass ate atecrash atecrashed atecrashes atecrashing ates ateway \
     ateways ather athered athering atherings athers audy auge auged auges auging aunt ave \
     awk awked awking awks awky aze azebo azebos azed azelle azelles azes azing ear ears \
     ecko eckos eese el elatin elatins elled elling els em ems ender enders ene eneral \
     eneralization eneralizations eneralize eneralized eneralizes eneralizing enerals \
     enerate enerated enerates enerating eneration enerations enerator enerators eneric \
     enerically enerosities enerosity enerous enerously enes enial enially enius enocide \
     enre enres entle entleman entlemen entleness entler ently enuine enuinely eographic \
     eographically eographies eography eologies eology erbil erbils erminate erminated \
     erminates erminating esture estured estures esturing et ets ettable etter etters etting \
     eyser eysers hastly host hostly hosts iant iants iddy ift ifted ifts igantic iggle \
     iggled iggles iggling ild ilded ilding ilds inger ingerbread ingerbreads ingers inkgo \
     inkgos iraffe iraffes ird irded irding irds irl irlfriend irlhood irls ive iven ives \
     iving lacial lacially lacier laciers lad lamorize lamorized lamorizes lamorizing \
     lamorous lamorously lamour lance lanced lances lancing land lands lare lared lares \
     laring lass lasses leam leamed leaming leams lean leaned leaning leans lib lide lided \
     lider liders lides liding limpse limpsed limpses limpsing listen listens litter litters \
     loat loated loating loats lobal lobally lobe lobes loomy lories lorified lorifies \
     lorify lorifying lorious loriously lory loss lossed losses lossing lossy love loves low \
     lowed lower lowers lowing lows lowworm lowworms lue lued lues luing luttonous \
     luttonously luttony narled nash nashed nashes nashing nat nats naw nawed nawing naws \
     nome nomes o oad oaded oading oads oal oalpost oalposts oals oat oats obble obbled \
     obbles obbling oblet oblets oblin oblins od odly ods oes oing old olden oldfinch \
     oldfinches oldfish oldfishes olds olf olfs ondola ondolas one ood oodbye oodness oods \
     oose ooseberries ooseberry ooses orge orged orgeous orgeously orges orging orilla \
     orillas ory ospel ospels ossip ossips ot otten ouge ouged ouges ouging ourd ourds overn \
     overned overning overnment overnments overnor overnors overns own owns rab rabbed \
     rabber rabbing rabs race raced raceful racefully races racing racious raciously rade \
     raded rades rading radual radually raduate raduated raduates raduating rain rains \
     rammar rammarize rammars ranaries ranary rand randchild randchildren randdaughter \
     randdaughters randfather randfathers randiose randma randmother randmothers randpa \
     randparent randparents randson randsons ranite ranites rant rantable ranted ranting \
     rants rape rapefruit rapefruits rapes rapevine rapevines raph raphic raphically raphs \
     rapple rappled rapples rappling rasp rasped rasping rasps rass rasses rasshopper \
     rasshoppers rate rated rateful ratefully rater rates ratified ratifies ratify ratifying \
     rating ratitude ratuitous ratuitously rave ravel ravels raves ravies ravitate ravitated \
     ravitates ravitating ravities ravity ravy ray raze razed razes razing rease reased \
     reases reasing reasy reat reater reatest reatly reed reedily reediness reeds reedy reen \
     reenhouse reenhouses reet reeted reeter reeting reetings reets regarious regariously \
     rew rey reyhound reyhounds riddle riddles rief riefs rievance rieve rieved rieves \
     rieving rill rilled rilling rills rim rin rind rinding rinds rinned rinning rins rip \
     ripped ripping rips risly rit ritty rizzlies rizzly roan roaned roaning roans roceries \
     rocery roggy room roomed rooming rooms rope roped ropes roping ross rosser rossly \
     rotesque round rounded rounding rounds roup rouped rouping roups rouse rouses rovel \
     rovels row rowable rowing rowl rowled rowling rowls rown rows rowth rowths rubby \
     ruesome ruff rumble rumbled rumbles rumbling rumpy rungy runt runted runting runts \
     uarantee uaranteed uaranteeing uarantees uard uarded uardian uardians uardianship \
     uarding uards uava uavas uess uessable uessed uesses uessing uest uests uffaw uffawed \
     uffawing uffaws uidance uidances uide uided uideline uidelines uides uiding uileless \
     uilelessly uilt uilts uilty uitar uitars ulf ulfs ull ullible ulls ulp ulped ulping \
     ulps um umdrop umdrops ums un unboat unboats unpowder unpowders uns ush ushed ushes \
     ushing ust usto usts utsy utter utters uy uys uzzle uzzled uzzles uzzling ym yms yrate \
     yrated yrates yrating";

const WORDS_H: &'static str = "abit abitat abitats abits abitual abitually abituate abituated abituates abituating ack \
     acked acker ackers acking acks ad addock addocks aggard aggle aggled aggles aggling ail \
     ailed ailing ails ailstone ailstones air aircut aircuts airs alf alibut alibuts all \
     allmark allowed alls allucinate allucinated allucinates allucinating allway allways alt \
     alted alting alts alve alved alves alving am amburger amburgers ammer ammered ammerhead \
     ammerheads ammering ammers ammock ammocks amper ampering ampers ams amster amsters \
     amstring amstringed amstringing amstrings and andbag andbags andcart andcarts andcuff \
     andcuffed andcuffing andcuffs anded andful andfuls andier anding andkerchief \
     andkerchiefs andle andled andler andlers andles andling andrail andrails ands andsome \
     andwriting andwritings andy ang angar angars anged anger angers anging angs aphazard \
     aphazardly apless aplessly appen appened appening appens appier appily appiness appy \
     arangue arangued arangues aranguing arass arassed arasses arassing arbor arbors ard \
     arden ardened ardening ardens arder ardest ardly ardship ardware ardwares ardy arm \
     armed armful armfully arming armless armlessly armonica armonicas armonies armonize \
     armonized armonizes armonizing armony arms arness arnessed arnesses arnessing arp \
     arpoon arpoons arps arrow arrowed arrowing arrows arsh arvest arvested arvesting \
     arvests as assle assled assles assling aste asten astens asty at atbox atboxes atch \
     atched atches atchet atchets atching ate ated ateful atefully ates ating atred atreds \
     ats aughty aul auled auling auls aunt aunted aunting aunts ave aves aving avoc awk awks \
     awthorn awthorns ay ays aystack aystacks ayward azard azardous azardously azards \
     azelnut azelnuts azy e ead eadache eadaches eadband eadbands eadboard eadboards eaded \
     eader eaders eading eadlamp eadlamps eadless eadline eadlines eadlong eadphone \
     eadphones eadquarters eads eadstrong eadway eal ealed ealing eals ealth ealths ealthy \
     eap eaped eaping eaps ear eard earing earings ears eart eartache eartbreak earten \
     eartens eartfelt eartless eartlessly earts earty eat eated eather eathers eating eats \
     eave eaved eaven eavenly eavens eaves eavier eaviest eavily eaving eavy eckle eckled \
     eckles eckling ectic edge edged edgehog edgehogs edgerow edgerows edges edging eed \
     eeded eeding eedless eedlessly eeds eel eels efty eight eighten eightens eights einous \
     einously eir eirloom eirlooms eirs eld elicopter elicopters ell ello ells elmet elmets \
     elp elped elper elpers elpful elpfully elping elpless elplessly elps emisphere \
     emispheres emlock emlocks en ence enceforth enpeck enpecked enpecking enpecks ens er \
     erald eralded eralding eralds erb erbs erd erded erding erds ere ereby erein eresy \
     eretofore eritage ermit ermits ero eroes eroic eroine eroines eroism eron erons erring \
     errings ers erself esitate esitated esitates esitating esitation esitations ey i \
     ibernate ibernated ibernates ibernating ibiscus iccup iccups id idden ide ideous \
     ideously ides iding ierarchies ierarchy igh igher ighest ighlight ighlighted ighlighter \
     ighlighting ighlights ighly ighway ighways ijack ijacked ijacking ijacks ike iked ikes \
     iking ikings ilarious ilariously ill ills illtop illtops im imself inder indering \
     inders indsight int inted inter inting ints ip ippo ippopotamus ippos ips ire ired ires \
     iring is iss issed isses issing istorian istorians istoric istorical istorically \
     istories istory it ither itherto its itter itting ive ives mm oard oarded oarding oards \
     oarse obbies obble obbled obbles obbling obby ockey ockeys oe oes oist oisted oisting \
     oists old older olders olding olds ole oles oliday olidays ollies ollow ollowed \
     ollowing ollows olly ollyhock ollyhocks oly omage ome omeland omelands omeless \
     omelessly omely omes omesickness omestead omesteads omeward omework omeworks onest \
     onesties onestly onesty oney oneybee oneybees oneycomb oneycombs oneys oneysuckle \
     oneysuckles onor onorable onored onoring onors ood oods oodwink oodwinked oodwinking \
     oodwinks oof oofs ook ooked ooker ooking ooks ooray oot ooted ooting oots op ope oped \
     opeful opefully opeless opelessly opes oping opper opping ops opscotch opscotches \
     orizon orizons orizontal orizontally orn ornet ornets orns orrible orribly orror orrors \
     orse orses orseshoe orseshoes ose osed oses osing ospitable ospital ospitality ospitals \
     ost ostage ostages osted ostel ostels ostile ostility osting osts osttable ot otdog \
     otdogs otel otels ottest ound ounded ounding ounds our ourglass ourglasses ours ouse \
     ouseboat ouseboats ouseflies ousefly ousehold ouseholds ouses ousework ousing ousings \
     over overed overing overs ow owever owl owled owling owls uddle uddled uddles uddling \
     ug uge ugely uger ugged ugging ugs ulking um umane umanities umanity umanize umble \
     umbled umbles umbling umid umidity umiliate umiliated umiliates umiliating umility \
     ummed umming ummingbird ummingbirds umor umorous umorously umors ums unch unched unches \
     unching undred undreds undredth ung unger ungers ungry unt unted unter unters unting \
     untings unts url urled urling urls urricane urricanes urried urriedly urries urry \
     urrying urt urting urtle urtled urtles urtling urts usband usbands ush ushed ushes \
     ushing uskies usky ustle ustled ustles ustling ut uts yacinth yacinths ydrant ydrants \
     ydrate ydrated ydrates ydrating ydrogen ydrogens yena yenas ygiene yperventilate \
     yperventilated yperventilates yperventilating yphenate yphenated yphenates yphenating \
     ypnotize ypnotized ypnotizes ypnotizing ypocrisy ypocritical ypocritically ypotheses \
     ypothesis ysterical ysterically";

const WORDS_I: &'static str = " ce ceberg cebergs ces cicle cicles con conize cons cy dea deal deally deals deas \
     dentical dentically dentifiable dentified dentifier dentifiers dentifies dentify \
     dentifying dentities dentity deologies deology diot diots dle dled dleness dles dling \
     dolize dolized dolizes dolizing dyllic f gloo gloos gnite gnited gnites gniting \
     gnorable gnorance gnorances gnorant gnore gnored gnores gnoring guana guanas ll llegal \
     llegally llicit lliterate llness lluminate lluminated lluminates lluminating llusion \
     llusions llustrate llustrated llustrates llustrating llustration llustrations \
     llustrative llustrious llustriously mage mages maginary magination maginations \
     maginative maginatively magine magined magines magining mbibe mbibed mbibes mbibing \
     mitate mitated mitates mitating mmaculate mmature mmediate mmediately mmense mmensely \
     mmerse mmersed mmerses mmersing mmersive mmigrant mmigrants mmigrate mmigrated \
     mmigrates mmigrating mmigration mmigrations mminent mmobilize mmobilized mmobilizes \
     mmobilizing mmoral mmorally mmortalize mmortalized mmortalizes mmortalizing mmune \
     mmunities mmunity mpact mpactful mpacts mpair mpaired mpairing mpairs mpale mpaled \
     mpales mpaling mpart mparted mpartial mpartially mparting mparts mpatience mpatient \
     mpeach mpeached mpeaches mpeaching mpeccable mpede mpeded mpedes mpeding mpenetrable \
     mperative mperatively mperial mperially mperious mperiously mpersonate mpersonated \
     mpersonates mpersonating mpertinent mpervious mperviously mpetuous mpetuously mpious \
     mpiously mplacable mplant mplanted mplanting mplants mplement mplementation \
     mplementations mplemented mplementer mplementers mplementing mplements mplicate \
     mplicated mplicates mplicating mplication mplications mplied mplies mplore mplored \
     mplores mploring mply mplying mpolite mport mportable mportance mportances mportant \
     mportantly mportation mported mporter mporters mporting mports mpose mposed mposes \
     mposing mpossible mpossibly mpound mpounded mpounding mpounds mpoverished mpractical \
     mpractically mpress mpressed mpresses mpressing mpression mpressions mpressive \
     mpressively mprint mprinted mprinting mprints mprison mprisons mproper mproperly mprove \
     mproved mprovement mprovements mproves mproving mprovise mprovised mprovises mprovising \
     mpudent mpugn mpugned mpugning mpugns mpulse mpulses mpulsive mpulsively mpunity n \
     nadequate nane nappropriate nappropriately nasmuch naugurate naugurated naugurates \
     naugurating nbox ncapable ncapacitate ncapacitated ncapacitates ncapacitating \
     ncarcerate ncarcerated ncarcerates ncarcerating ncense ncensed ncenses ncensing \
     ncentive ncentives ncessant ncessantly nch nches nchworm nchworms ncident ncidental \
     ncidentally ncidents ncinerate ncinerated ncinerates ncinerating ncise ncised ncises \
     ncising ncite ncited ncites nciting nclination ncline nclined nclines nclining nclude \
     ncluded ncluders ncludes ncluding nclusion nclusions ncoherent ncome ncomes ncompetent \
     ncomplete ncompletely ncompleteness nconsiderate nconsistent nconsistently nconvenience \
     nconvenienced nconveniences nconveniencing ncorporate ncorporated ncorporates \
     ncorporating ncorrect ncorrectly ncorrectness ncorrigible ncrease ncreased ncreases \
     ncreasing ncredible ncredibly ncriminate ncriminated ncriminates ncriminating ncubate \
     ncubated ncubates ncubating nculcate nculcated nculcates nculcating ncur ncurred \
     ncurring ncurs ndeed ndefatigable ndelible ndemnified ndemnifies ndemnify ndemnifying \
     ndependence ndependences ndependent ndependently ndex ndexes ndicate ndicated ndicates \
     ndicating ndication ndications ndicative ndicator ndicators ndices ndifference \
     ndifferent ndigenous ndigenously ndignant ndignation ndigo ndirect ndirectly \
     ndirectness ndividual ndividually ndividuals ndoctrinate ndoctrinated ndoctrinates \
     ndoctrinating ndolent ndomitable ndoors nduce nduced nduces nducing ndulge ndulged \
     ndulges ndulging ndustrial ndustrialize ndustrialized ndustrializes ndustrializing \
     ndustrially ndustries ndustrious ndustriously ndustry nebriate nebriated nebriates \
     nebriating neffable nept nequalities nequality nert nertia nevitable nevitably \
     nexorable nexpensive nexpensively nfallible nfamous nfamously nfancy nfant nfants \
     nfatuate nfatuated nfatuates nfatuating nfect nfected nfecting nfection nfections \
     nfectious nfectiously nfects nfer nferior nferred nferring nfers nfest nfested nfesting \
     nfests nfiltrate nfiltrated nfiltrates nfiltrating nfinite nfinitely nfinities nfinity \
     nflame nflamed nflames nflaming nflate nflated nflates nflating nflation nflations \
     nflect nflected nflecting nflects nflexible nflict nflicted nflicting nflicts nfluence \
     nfluenced nfluences nfluencing nform nformal nformally nformation nformational \
     nformations nformed nforming nforms nfrastructure nfrastructures nfringe nfringed \
     nfringement nfringements nfringes nfringing nfuse nfused nfuses nfusing ngenious \
     ngeniously ngenuity ngenuous ngenuously ngest ngested ngesting ngests ngratiate \
     ngratiated ngratiates ngratiating ngredient ngredients nhabit nhabitant nhabitants \
     nhabited nhabits nhale nhaled nhales nhaling nherent nherently nherit nheritable \
     nheritance nheritances nherited nheriting nherits nhibit nhibited nhibiting nhibition \
     nhibits nhospitable nimitable nimitably niquitous niquitously nitial nitialize \
     nitialized nitializes nitializing nitially nitiate nitiated nitiates nitiating \
     nitiative nitiatives nject njected njecting njection njections njects njure njured \
     njures njuries njuring njury njustice nk nks nkwell nkwells nlay nlaying nlays nlet \
     nlets nn nnate nner nnervate nnervated nnervates nnervating nnocence nnocences nnocent \
     nnocently nnocuous nnocuously nnovate nnovated nnovates nnovating nnovation nnovations \
     nnovative nnovatively nns noculate noculated noculates noculating nput nputs nputted \
     nputting nquire nquired nquires nquiries nquiring nquiry nquisitive nquisitively nsane \
     nsanely nsanities nsanity nsatiable nscribe nscribed nscribes nscribing nscrutable \
     nsect nsects nsecure nsecurely nsecurity nsert nserted nserting nserts nside nsidious \
     nsidiously nsight nsights nsignificant nsignificantly nsinuate nsinuated nsinuates \
     nsinuating nsipid nsist nsisted nsisting nsists nsofar nsolence nsolent nsomnia nspect \
     nspected nspecting nspection nspections nspector nspectors nspects nspiration \
     nspirations nspire nspired nspires nspiring nstall nstallable nstallation nstallations \
     nstalled nstaller nstallers nstalling nstalls nstance nstances nstant nstantly nstead \
     nstigate nstigated nstigates nstigating nstill nstilled nstilling nstills nstinct \
     nstincts nstitute nstituted nstitutes nstituting nstitution nstitutional nstitutionally \
     nstitutions nstruct nstructed nstructing nstruction nstructions nstructive nstructor \
     nstructors nstructs nstrument nstrumental nstrumentally nstruments nsufferable nsulate \
     nsulated nsulates nsulating nsult nsulted nsulting nsults nsurance nsurances nsure \
     nsured nsures nsuring ntact ntegral ntegrally ntegrate ntegrated ntegrates ntegrating \
     ntegration ntegrations ntegrities ntegrity ntellect ntellects ntellectual ntellectually \
     ntelligence ntelligences ntelligent ntelligently ntend ntended ntending ntends ntense \
     ntensified ntensifies ntensify ntensifying ntensities ntensity ntensive ntensively \
     ntention ntentional ntentionally ntentions nteract nteracted nteracting nteraction \
     nteractions nteractive nteractively nteractiveness nteractivity nteracts ntercept \
     ntercepted ntercepting ntercepts nterest nterested nteresting nterestingly nterests \
     nterfere nterfered nterference nterferences nterferes nterfering nterim nterior \
     nteriors nterject nterjected nterjecting nterjects nterlace nterlaced nterlaces \
     nterlacing nterlock nterlocked nterlocking nterlocks ntermediate ntermingle ntermingled \
     ntermingles ntermingling ntern nternal nternalize nternalized nternally nternational \
     nternationalize nternationalized nternationalizing nternationally nterned nternet \
     nterning nterns nterpose nterposed nterposes nterposing nterpret nterpretable \
     nterpretation nterpretations nterpreter nterpreters nterpreting nterprets nterpretted \
     nterrogate nterrogated nterrogates nterrogating nterrupt nterrupted nterrupting \
     nterrupts ntertwine ntertwined ntertwines ntertwining nterval ntervals ntervene \
     ntervened ntervenes ntervening ntervention nterventions nterview nterviewed nterviewing \
     nterviews nterweave nterweaved nterweaves nterweaving ntimacies ntimacy ntimate \
     ntimated ntimates ntimating ntimidate ntimidated ntimidates ntimidating nto ntone \
     ntoned ntones ntoning ntoxicate ntoxicated ntoxicates ntoxicating ntrepid ntricate \
     ntrigue ntrigued ntrigues ntriguing ntrinsic ntrinsically ntroduce ntroduced ntroduces \
     ntroducing ntroduction ntroductions ntrude ntruded ntrudes ntruding ntuition ntuitions \
     nundate nundated nundates nundating nure nured nures nuring nvade nvaded nvades nvading \
     nvalid nvalidate nvalidated nvalidates nvalidating nvalidity nvalidly nvaluable nvasion \
     nvasions nveigle nveigled nveigles nveigling nvent nvented nventing nvention nventions \
     nventories nventory nvents nvert nverted nverting nverts nvest nvested nvestigate \
     nvestigated nvestigates nvestigating nvestigation nvestigations nvestigative \
     nvestigator nvestigators nvesting nvestment nvestments nvestor nvestors nvests \
     nveterate nvigorate nvigorated nvigorates nvigorating nvisible nvisibly nvitation \
     nvitations nvite nvited nvites nviting nvoice nvoices nvokable nvokation nvokations \
     nvoke nvoked nvoker nvokes nvoking nvolve nvolved nvolves nvolving nward rascible rate \
     res ris rksome ron ronies rons rony rregular rregularities rregularly rrelevant \
     rresponsible rreverent rrigate rrigated rrigates rrigating rritate rritated rritates \
     rritating s sland slands solate solated solates solating solation solations ssue ssued \
     ssuer ssuers ssues ssuing t tch tched tches tching tchy tem temization temize temized \
     temizes temizing tems terate terated terates terating terative teratively ts tself vies \
     vories vory vy";

const WORDS_J: &'static str = "ab abbed abber abbers abbing abs ackal ackals ackdaw ackdaws acket ackets aded agged \
     aguar aguars ail ailed ailing ails am ammed amming ams angle angled angles angling \
     anuary ar argon ars asmine asmines aunty avelin avelins aw aws azz azzes ealous \
     ealousies ealously ealousy eans eer eered eering eers ellies elly ellyfish ellyfishes \
     erk erked erking erks est ested esting ests et ets etties ettison ettisons etty ewel \
     ewelries ewelry ewels ibe ibed ibes ibing igsaw igsaws ingle ingled ingles ingling \
     ittery ob obs ockey ockeyed ockeying ockeys ocular og ogged ogging ogs oin oinable \
     oined oiner oining oins oint oints oke oked okes oking olly olt olted olting olts ostle \
     ostled ostles ostling ot ots otted otting ournal ournalism ournalist ournalists ournals \
     ourney ourneyed ourneying ourneys ovial ovially oy oyful oyfully oys ubilant ubilee \
     udge udged udgement udges udging udgment udgments udicial udicially udicious udiciously \
     ug uggle uggled uggles uggling ugs uice uices uicy uly umble umbled umbles umbling ump \
     umped umping umps unction unctions une ungle ungles unior uniper unipers uries ury ust \
     ustice ustices ustifiable ustification ustifications ustified ustifies ustify ustifying \
     ut uts utted utting uvenile";

const WORDS_K: &'static str = "ale ales angaroo angaroos ayak ayaks een eep eeper eepers eeping eeps elp elps ennel \
     ennels ept ernel ernels etchup etchups ettle ettles ey eyboard eyboards eys eystone \
     eystones ick icked icking icks id idded idding idnap idnaps idney idneys ids ill \
     illdeer illdeers illed iller illing ills ind inder indhearted indle indled indles \
     indling indly indness ing ingdom ingdoms ingfisher ingfishers ingly ings inship iosk \
     iosks ipper ippers iss issed isses issing it itchen itchenette itchenettes itchens ite \
     ites its itten ittens iwi iwis nack napsack napsacks napweed napweeds nead neaded \
     neading neads nee neel neeled neeling neels nees nelt new nife nifes night nights nit \
     nits nitted nitting nives nobby nock nocked nocking nocks not nots notted notting notty \
     now nowing nowledge nowledgeable nowledges nown nows nuckle nuckles oala oalas owtow \
     owtowed owtowing owtows";

const WORDS_L: &'static str = "ab abel abeler abelled abelling abels abor aboratories aboratory abored abors abs ace \
     acerate acerated acerates acerating aces acewing acewings ack ackadaisical \
     ackadaisically acked acking ackluster acks aconic adder adders adies adle adled adles \
     adling ady adybird adybirds adybug adybugs agoon agoons aid ain ake akes amb ambast \
     ambasted ambasting ambasts ambs ame ameness ament amented amenting aments amp ampoon \
     ampooned ampooning ampoons amppost ampposts amps ance anced ances ancing and anded \
     anders andfill andfills anding andlord andlords andmark andmarks ands andscape \
     andscapes andslide andslides ane anes anguage anguages anguid anguish anguished \
     anguishes anguishing anky antern anterns ap apel apels apped apping aps apse apsed \
     apses apsing aptop aptops arcenous arcenously arch arches arge argely argeness arger \
     argest ark arks ascivious asciviously aser asers asso assoed assoes assoing ast asted \
     astest asting astly asts atch atched atches atching ate ately atent ater ateral \
     aterally atest ather athers atter attice attices aud audable auded auding auds augh \
     aughed aughing aughs aughter aughters aunch aunched auncher aunchers aunches aunching \
     aunder aunders aundries aundry aurel aurels ava avas avender avenders avish avished \
     avishes avishing aw awful awfully awn awns aws awsuit awsuits awyer awyers ay ayer \
     ayers aying ayout ayouts ays azier azily aziness azy ead eaden eader eaders eadership \
     eaderships eading eads eaf eafy eague eagues eak eaked eaking eaks ean eaned eaner \
     eaning eans eap eaped eaping eaps eapt earn earned earning earns earnt ease eased eases \
     easing east eather eathers eave eaven eavens eaves eaving echerous echerously ecture \
     ectured ectures ecturing ed edge edges eek eeks eer eered eering eers eery eft eg \
     egacies egacy egal egally egend egendary egends egible egibly egislate egislated \
     egislates egislating egislation egislations egislature egislatures egitimate \
     egitimately egitimize egitimized egitimizes egitimizing egs eisure eisures emon emonade \
     emonades emons emur emurs end ending ends ength engthen engthened engthening engthens \
     engthless engths engthwise engthy eniency enient eniently ens ent entil entils eopard \
     eopards ess essen essening essens esson essons et ethal ethally ethargic ethargy ets \
     etter etters etting ettuce ettuces evel eveling evels evied evies evitate evitated \
     evitates evitating evy evying ewd iabilities iability iable iaise iaised iaises iaising \
     iberal iberally iberate iberated iberates iberating iberties iberty ibrarian ibrarians \
     ibraries ibrary ice icensable icense icensed icenses icensing icentious icentiously \
     ichen ichens ick icked icking icks id ids ie ies ife ifeboat ifeboats ifeguard \
     ifeguards ifeless ifelessly ifestyle ifestyles ifetime ifetimes ift ifted ifting ifts \
     ight ighted ighten ightening ightens ighter ightest ighthouse ighthouses ighting ightly \
     ightness ightning ightnings ights iing ike iked ikeliness ikely ikes ikewise iking ilac \
     ilacs ilies ilting ily ilypad ilypads imb imber imbs ime imelight imes imestone \
     imestones imit imitation imitations imited imiter imiters imiting imits imousine \
     imousines imp imped imping imps inden indens ine ineage inear inearize inearized \
     inearly ined inen inens iner ines inger ingering ingers ining ink inkable inked inker \
     inkers inking inks innet innets ion ionize ionized ionizes ionizing ions ip ips \
     iquefied iquefies iquefy iquefying iquid iquidate iquidated iquidates iquidating iquids \
     isp isped isping isps ist isted isten istenable istened istener isteners istening \
     istens ister isting istless istlessly ists it iteracies iteracy iteral iterally iterary \
     iterature iteratures ithe itter ittered itters ittle ive ived ivelihood iveliness ively \
     iveness iver ivers ives ivid iving ivings izard izards lama lamas oad oadable oaded \
     oader oaders oading oads oan oaned oaning oans oathe oathed oathes oathing oathsome \
     oaves ob obbed obbied obbies obbing obby obbying obs obster obsters ocal ocality \
     ocalizable ocalization ocalizations ocalize ocalized ocalizes ocalizing ocally ocalness \
     ocate ocated ocates ocating ocation ocations ock ockable ocked ocker ocket ockets \
     ocking ockless ocks ocust ocusts odge odged odges odging oft oftier ofts ofty og ogged \
     ogger ogging ogic ogical ogically ogics ogin ogout ogs oiter oiters oll olled olling \
     ollipop ollipops olls one oneliness onely oner ong onged onger ongest ongevity onghorn \
     onghorns onging ongly ongs ook ooked ooker ooking ooks oom oomed ooming ooms oop ooped \
     ooping oops oose oosely oosen oosened ooseness oosening oosens ooser oot ooted ooting \
     oots ope oped opes oping opsided oquacious oquaciously ord ords orries orry ose oser \
     oses osing oss osses ossless ost ot otion otions ots otteries ottery otus oud ouder \
     oudly ousily ousy ove oved ovely over overs oves oving ovingly ow ower owered owering \
     owers owest owly oyal oyally oyalties oyalty ubricate ubricated ubricates ubricating \
     ucid uck uckily ucks ucky ucrative ucratively udicrous udicrously uggage uggages \
     ugubrious ugubriously ukewarm ull ulled ulling ulls umber umberjack umberjacks umbers \
     uminous uminously ump umps umpy unacy unch unches ung unge unged unges unging ungs urch \
     urched urches urching ure ured ures urid uring urk urked urking urks ush ustrous \
     ustrously ute utes uxuries uxurious uxuriously uxury ynx ynxes yric yrics";

const WORDS_M: &'static str = "acabre acaroni acaronis acaw acaws acerate acerated acerates acerating achine \
     achineries achinery achines ackerel ackerels ad ade adness agazine agazines agic agical \
     agically agician agicians agicness agics agnanimous agnanimously agnet agnetic agnets \
     agnificent agnified agnifies agnify agnifying agnitude agnitudes agnolia agnolias agpie \
     agpies aid aids ail ailbox ailboxes ailed ailer ailers ailing aillist ails ain ainland \
     ainlands ainly aintain aintainable aintained aintainer aintainers aintaining aintains \
     aintenance aintenances ajestic ajor ajorities ajority ajorly ake aker akers akes akeup \
     akeups aking ale ales alevolent alice alicious aliciously align aligned aligning aligns \
     alinger alingers all alleable allet allets alls alodorous alodorously ammal ammals \
     ammoth ammoths an anage anageable anaged anagement anagements anager anagers anages \
     anaging anatee anatees andate andates andatory andolin andolins ane anes angle angled \
     angles angling ango angos angrove angroves angy anhandle anhandled anhandles anhandling \
     anhood aniacal aniacally anic anicure anicured anicures anicuring anipulate anipulated \
     anipulates anipulating ankind anner annerly anners anor anors ansion ansions antes \
     antis anual anually anuals anufacture anufactured anufacturer anufacturers anufactures \
     anufacturing anuscript anuscripts any ap aple aples appable apped apper apping aps ar \
     arathon arathons arble arbles arch archal arched arches arching are ared ares argin \
     arginal arginally argins arigold arigolds arinate arinated arinates arinating arine \
     arines aring ark arked arkedly arker arkers arket arketed arketing arketings arkets \
     arking arks armalade armalades armot armots aroon arooned arooning aroons arriage \
     arriages arried arries arry arrying ars arsh arshal arshes arshmallow arshmallows arten \
     artens artyr artyred artyring artyrs arvel arvellous arvellously arvelous arvelously \
     arvels ascot ascots asculine ash ashed ashes ashing ask asked asking asks asquerade \
     asqueraded asquerades asquerading ass assacre assacred assacres assacring assage \
     assaged assages assaging asses assive assively aster astered astering asterpiece asters \
     asticate asticated asticates asticating atch atched atcher atchers atches atching ate \
     ated aterial aterialization aterialize aterialized aterializes aterializing aterials \
     ates athematics ating atrices atronly atter attered atters attock attocks attress \
     attresses ature atured atures aturing aturity audlin aul auled auling auls awkish \
     aximization aximize aximized aximizes aximizing aximum aximums ay aybe ayflies ayfly \
     ayhem ayonnaise ayonnaises ayor ayors e eadow eadowlark eadowlarks eadows eager eal \
     eals ean eander eanders eaning eaningful eaningfully eaningless eanings eans eant \
     eanwhile easurable easurably easure easured easurement easurements easures easuring eat \
     eatball eatballs eats echanic echanical echanically echanics echanism echanisms \
     echanize echanized echanizes echanizing edal edals eddle eddled eddles eddlesome \
     eddling edia edias ediate ediated ediates ediating edical edically edicine edicines \
     edieval edievally ediocre editate editated editates editating edium ediums eek eet \
     eeting eetings eets egaphone egaphones elancholy ellow elodic elodies elody elon elons \
     elt elted elting elts ember embers embership emberships emorable emorial emorialize \
     emorialized emorializes emorializing emorials emories emorize emorized emorizes \
     emorizing emory en enagerie enageries end endacious endaciously ended ending ends enial \
     enially ental entally ention entioned entioning entions enu enus ercenary erchant \
     erchants ercies erciful ercifully erciless ercilessly ercurial ercurially ercy ere \
     erely erge erged erges erging eringue eringues erit eritorious eritoriously erits \
     ermaid ermaids erry esh eshed eshes eshing esmerize esmerized esmerizes esmerizing ess \
     essage essages esses essier essiness essy et etal etallic etals etamorphose \
     etamorphosed etamorphoses etamorphosing etaphor etaphors eteor eteors eter eters ethod \
     ethods eticulous eticulously ice icrophone icrophones icroscope icroscopes icrowave \
     icrowaves idlife idnight idnights iffed ight ighty igratable igrate igrated igrates \
     igrating igration igrations ild ilder ildly ile iles ilestone ilestones ilitant ilitary \
     ilitate ilitated ilitates ilitating ilk ilked ilking ilks ilkweed ilkweeds ill \
     illennium illenniums illion illions illionth illipede illipedes ills imic imics ind \
     inded indful indfully inding indless indlessly inds indset ine ined iner ineral inerals \
     iners ines ingle ingled ingles ingling iniature inimal inimally inimization inimize \
     inimized inimizes inimizing inimum inimums ining inister inisters inistries inistry \
     innow innows inor inorities inority inorly inute inutely inutes iracle iracles ire ired \
     ires iring irror irrors irthful irthfully isalignment isbehave isbehaved isbehaves \
     isbehaving isbehavior iscalculate iscalculated iscalculates iscalculating iscalculation \
     ischief ischievous ischievously isconfiguration isconstrue isconstrued isconstrues \
     isconstruing isdirect isdirected isdirecting isdirects iserable iserably iseries iserly \
     isery isfeature isfortune isguided isguidedly ishandle ishap isinform isinformation \
     isinformed isinforming isinforms isinterpret isinterpretation isinterpreted \
     isinterpreting isinterprets isjudge isjudged isjudges isjudging islaid islay islaying \
     islays islead isleading isleads isled ismanage ismanaged ismanages ismanaging ismatch \
     isplace isplaced isplacement isplacements isplaces isplacing isprint isquote isquoted \
     isquotes isquoting isread isrepresent isrepresented isrepresenting isrepresents iss \
     issed isses issing ission issions isspell isspelled isspelling isspells ist istake \
     istaken istakes istaking istletoe istletoes istook istreat istreated istreating \
     istreats ists isty istype isunderstanding isunderstood ite ites itigate itigated \
     itigates itigating itten ittens ix ixed ixer ixes ixing ixture ixtures oan oaned oaning \
     oans oat oats ob obile obilities obility obilize obilized obilizes obilizing obs \
     occasin occasins ock ocked ocking ockingbird ockingbirds ocks odal ode odel odeless \
     odelled odelling odels odem odems oderate oderated oderately oderates oderating odern \
     odernization odernize odernized odernizes odernizing odes odest odesty odifiable \
     odified odifier odifiers odifies odify odifying odish odulate odulated odulates \
     odulating oist oisten oistens olasses old olded olding olds ole olecular oles olest \
     olested olesting olests ollified ollifies ollify ollifying ollycoddle ollycoddled \
     ollycoddles ollycoddling om oment omentarily omentary omentous omentously oments \
     omentum omentums ommy oms onarch onarchs onasteries onastery onday onetary oney oneys \
     ongoose ongooses onitor onitored onitoring onitors onk onkey onkeys onks onopolies \
     onopolize onopolized onopolizes onopolizing onopoly onotonous onotonously onsoon \
     onsoons onster onsters onstrous onstrously onth onthly onths onument onumental onuments \
     ood oods oody oon oonbeam oonbeams oonlight oons oor oored ooring oorland oorlands oors \
     oose ooses op opped opping ops oral orale orales oralities orality oralize oralized \
     oralizes oralizing orally orbid ore oreover oribund orning ornings orose ortal \
     ortalized ortally ortgage ortgages ortified ortifies ortify ortifying osque osques \
     osquito osquitoes osquitos oss osses ost ostly otel otels oth other otherhood otherly \
     others othership oths otion otionless otionlessly otions otivate otivated otivates \
     otivating otivation otivations otive otives otor otorcycle otorcycles otors ottled ount \
     ountable ountain ountains ounted ounting ounts ourn ourned ournful ournfully ourning \
     ourns ouse ouses ousy outh ouths ovable ove oved ovement ovements oves ovie ovies oving \
     ow owed owing ows uch ud uddied uddies uddle uddled uddles uddling uddy uddying uds \
     uffin uffins uffle uffled uffles uffling ug ugged ugging uggy ugs ulberries ulberry \
     ulch ulched ulches ulching ule ules ulish ultiplied ultiplier ultipliers ultiplies \
     ultiply ultiplying um umble umbled umbles umbling ummified ummifies ummify ummifying \
     unch unched unches unching undane unicipal unicipally urder urders urky urmur urmurs \
     uscle uscles uscular use used uses useum useums ushroom ushrooms usic usical usically \
     usician usicians usics using usket uskets uskrat uskrats ussel ussels ust ustang \
     ustangs ustard ustards usty utate utated utates utating utation utations utilate \
     utilated utilates utilating utinous utinously utter utters utual utually uzzle uzzled \
     uzzles uzzling y yopic yself ysteries ysterious ysteriously ystery ystified ystifies \
     ystify ystifying yth ythical ythically ythology yths";

const WORDS_N: &'static str = "ag agged agging ags ail ailed ailing ails aive aively aivety aked ame amed ameless \
     amely ames aming ap apkin apkins apped apping aps arcissism arcissistic arrate arrated \
     arrates arrating arrative arratives arrow arrowed arrower arrowing arrowly arrows \
     astiness asturtium asturtiums asty ation ational ationalities ationality ationalize \
     ationalized ationalizes ationalizing ationally ations ative atively atives atural \
     aturally ature atures aughty auseous auseously aval avally avies avigate avigated \
     avigates avigating avy ear earby earer earest early eat eater eatest eatly ebulous \
     ebulously ecessarily ecessary ecessitate ecessitated ecessitates ecessitating \
     ecessities ecessity eck ecklace ecklaces ecks ectar ectars eed eeded eeding eedle \
     eedles eedless eeds eedy efarious efariously egative egatively eglect eglected \
     eglecting eglects egligent egligible egotiate egotiated egotiates egotiating eighbor \
     eighborhood eighborhoods eighbors either ephew ephews epotism erdy erve erves ervous \
     ervously ervy est estable ested ester esting estle estled estles estling ests et ets \
     etwork etworks euter euters eutral eutrality eutralize eutralized eutralizes \
     eutralizing eutrally ever evertheless ew ewer ewest ewly ewspaper ewspapers ewt ewts \
     ext ibble ibbled ibbles ibbling ice icely iceness icer icest ick icked ickel ickels \
     icking icks iece ieces iftiness ifty iggle iggled iggles iggling ight ightcap ightcaps \
     ightgown ightgowns ightingale ightingales ightmare ightmares ights ightstand ightstands \
     imble ine ineteen ineteenth inety inth ip ipped ipping ips o obility oble obody od \
     odded odding ods oise oises oisier oisily oisome oisy ominal ominally ominate ominated \
     ominates ominating omination ominations onblank onblock onchalant oncurrent ondefault \
     ondescript ondestructive one onempty onetheless onexclusive onfatal onidentical \
     oninteractive onlinear onlocal onnegative onportable onpositive onsense onsenses \
     onstandard onstop ontrivial onusable oodle oodles oon oons or orm ormal ormalization \
     ormalizations ormalize ormalized ormalizer ormalizes ormalizing ormally orms orth orths \
     ose osedive osedived osedives osediving oses ostalgia ostalgic ot otable otably \
     otarization otarize otarized otarizes otarizing otation otations ote otebook otebooks \
     oted otes othing otice oticeable oticeably oticed otices oticing otified otifier \
     otifies otify otifying oting otion otions otoriety otorious otoriously otwithstanding \
     oun ouns ourish ourished ourishes ourishing ovel ovelist ovelists ovels ovelty ovember \
     ow owhere oxious oxiously ubile uclear uclei ucleus udge udged udges udging uisance \
     uisances ullified ullifies ullify ullifying umb umber umbered umbering umbers umerous \
     umerously urse ursed urseries ursery urses ursing urture urtured urtures urturing ut \
     utcracker utcrackers uthatch uthatches utmeg utmegs utrition utritions utritious \
     utritiously uts uzzle uzzled uzzles uzzling ylon ylons";

const WORDS_O: &'static str = "afish ak aks ar ars ases at ath aths atmeal atmeals ats bdurate bedient bese bey beyed \
     beying beys bfuscate bfuscated bfuscates bfuscating bject bjected bjecting bjection \
     bjections bjective bjectively bjectives bjects bligation bligations bligatory blige \
     bliged bliges bliging bliterate bliterated bliterates bliterating blivion blivious \
     bliviously bnoxious bnoxiously bscure bscured bscurely bscures bscuring bscurity \
     bsequious bsequiously bservable bservant bservation bservations bserve bserved bserver \
     bservers bserves bserving bsess bsessed bsesses bsessing bsession bsessions bsolete \
     bsoleteness bstacle bstacles bstinate bstruct bstructed bstructing bstructive bstructs \
     btain btainable btained btaining btains btuse bviate bviated bviates bviating bvious \
     bviously bviousness ccasion ccasional ccasionally ccasions cclude ccluded ccludes \
     ccluding ccupation ccupations ccupied ccupies ccupy ccupying ccur ccurred ccurring \
     ccurs cean ceans celot celots ctober ctopus dd ddest ddities ddity ddly ddness dious \
     diously dor dors f ff ffend ffended ffending ffends ffense ffenses ffensive ffensively \
     ffer ffered ffering ffers ffice fficer fficers ffices fficial fficially fficials \
     fficiate fficiated fficiates fficiating fficious fficiously ffline ffset ffsets \
     ffsetting ffspring ffsprings ften gle gled gles gling h il ils ily k kay kra kras ld \
     lder ldest leander leanders live lives melet melets minous minously mission missions \
     mit mits mitted mitting n nce ne nerous nerously nion nions nline nly nto nward ops oze \
     ozed ozes ozing paque pen pened pener pening penings penly penness penning pens pera \
     peras perate perated perates perating peration perational perationally perations \
     perator perators pinion pinionated pinions possum possums pponent pponents pportune \
     pportunities pportunity ppose pposed pposes pposing pposite pposition ppositions ppress \
     ppressed ppresses ppressing pt ptable pted ptical ptically ptimal ptimality ptimally \
     ptimism ptimistic ptimistically ptimization ptimizations ptimize ptimized ptimizer \
     ptimizers ptimizes ptimizing pting ption ptional ptionality ptionally ptions pts pulent \
     r ral rally range ranges rangutan rangutans rate rated rates rating rbit rbital rbits \
     rchard rchards rchestra rchestras rchestrate rchestrated rchestrates rchestrating rchid \
     rchids rdain rdained rdaining rdains rdeal rder rdered rdering rders rdinarily rdinary \
     regano reganos rgan rganic rganism rganization rganizational rganizations rganize \
     rganized rganizes rganizing rgans rient rientation rientations riented rienting rients \
     rigin riginal riginally riginate riginated riginates riginating rigins riole rioles \
     rnament rnamented rnamenting rnaments rnate rphan rphanage rphans rthodox scillate \
     scillated scillates scillating sprey spreys stentatious stentatiously stracize \
     stracized stracizes stracizing strich striches ther therwise tter tters uch ught ur urs \
     urselves ust usted usting usts ut utbound utcome utcomes utcry utdid utdo utdoes \
     utdoing utdone utdoors uter utfile utfit utfits utgrew utgrow utgrowing utgrown utgrows \
     uthouse uthouses utlandish utlandishly utlast utlasted utlasting utlasts utlaw utlawed \
     utlawing utlaws utlet utlets utline utlined utlines utlining utlive utlived utlives \
     utliving utlook utlooks utmaneuver utmaneuvers utnumber utnumbers utperform utperformed \
     utperforming utperforms utput utputs utrage utraged utrageous utrageously utrages \
     utraging utran utrank utranked utranking utranks utright utshine utshines utshining \
     utshone utside utsmart utsmarted utsmarting utsmarts utsource utsourced utsources \
     utsourcing utspoken utstanding utstrip utstrips utward utweigh utweighed utweighing \
     utweighs val vally ven vens ver veract veracted veracting veracts verall verate \
     verbearing verbook verbooked verbooking verbooks verburden verburdens vercame vercharge \
     vercharged vercharges vercharging vercoat vercoats vercome vercomes vercoming \
     verconfident vercook vercooked vercooking vercooks verdid verdo verdoes verdoing \
     verdone verdose verdosed verdoses verdosing verdue vereager vereat vereaten vereating \
     vereats verestimate verestimated verestimates verestimating verflow verflowed \
     verflowing verflows verhaul verhauled verhauling verhauls verhead verhear verheard \
     verhearing verhears verheat verheated verheating verheats verjoyed verkill verlap \
     verlapped verlapping verlaps verlarge verlength verload verloadable verloaded \
     verloading verloads verlong verlook verlooked verlooking verlooks vernight verpay \
     verpayed verpaying verpays verpopulate verpopulated verpopulates verpopulating verpower \
     verpowers verprice verpriced verprices verpricing verran verrate verrated verrates \
     verrating verreact verreacted verreacting verreacts verread verridable verride verrided \
     verrides verriding verrule verruled verrules verruling verrun verrunning verruns versaw \
     verseas versee verseeing verseen versees vershadow vershadowed vershadowing vershadows \
     vershoot vershooting vershoots vershot versight versimplified versimplifies versimplify \
     versimplifying versize versleep versleeping versleeps verslept verspend verspending \
     verspends verspent verstate verstated verstates verstating verstay verstayed verstaying \
     verstays verstep verstepping versteps verstretch verstretched verstretches \
     verstretching verstrike vert vertake vertaken vertakes vertaking vertax vertaxed \
     vertaxes vertaxing verthrew verthrow verthrowing verthrown verthrows vertly vertook \
     verturn verturned verturning verturns veruse verused veruses verusing vervalue \
     vervalued vervalues vervaluing verview verviews verwhelm verwhelmed verwhelming \
     verwhelmingly verwhelms verwork verworked verworking verworks verwrite verwriting \
     verzealous we wed wes wing wl wls wn wned wner wnerless wners wnership wnerships wning \
     wns xcart xcarts xen xygen xygens yster ysters";

const WORDS_P1: &'static str = "ace aced aces acified acifies acify acifying acing ack ackage ackages acked acker acket \
     ackets acking acks ad addle addled addles addling addock addocks ads age ageable aged \
     ages aging agoda agodas aid ain ainful ainfully ainless ains aint aintbrush aintbrushes \
     ainted ainter ainters ainting aintings aints air aired airing airs ajamas alace alaces \
     alatable ale allid alm alms alomino alominos alpitate alpitated alpitates alpitating \
     altry amper ampers an ancake ancakes anda andas ander anders aned anel anels anic \
     anicing anics anner anning anoramic ans ansies ansy anther anthers ants apaya apayas \
     aper apers apyrus arachute arachutes arade araded arades arading aradise aradises \
     aradox aragraph aragraphs arakeet arakeets arallel arallelism arallelist arallelize \
     arallelized arallelizes arallels aralyze aralyzed aralyzes aralyzing arameter \
     arameterize arameterized arameterizes arameterless arameters aramount aranoia aranoid \
     araphrase araphrased araphrases araphrasing arasol arasols arcel arcels arch arched \
     arches arching ardon ardons are ared arent arental arentally arentheses arentless \
     arents ares aring ark arked arker arking arkings arks arlay arlayed arlaying arlays \
     arliament arliaments arodied arodies arody arodying arole aroled aroles aroling arried \
     arries arrot arrots arry arrying arsable arse arsed arser arsers arses arsimonious \
     arsimoniously arsing arsley arsleys arsnip arsnips art artake artaken artakes artaking \
     arted artial artially artialness articipant articipants articipate articipated \
     articipates articipating articipation articipations article articles articular \
     articularities articularly arties arting artisan artition artitioned artitioning \
     artitions artly artner artners artnership artnerships artook artridge artridges arts \
     arty ass assable assage assages assed assenger assengers asses assing assion assionate \
     assions assive assively assport assports assword asswordless asswords ast asta astas \
     aste asted astes asteurize asteurized asteurizes asteurizing asting astor astors \
     astries astry asts asture astures at atch atchable atched atches atchily atching atchy \
     atent atents aternal aternally ath athetic athetically aths atience atiences atient \
     atiently atients atio atios atriotism atrol atrols atronize atronized atronizes \
     atronizing ats atted atter attern atterns atting ause aused auses ausing ave aved \
     avement avements aves aving aw awed awing aws ay aying ayment ayments ays ea eace \
     eaceable eaceful eacefully eaces each eaches eacock eacocks eak eaks eanut eanuts eapod \
     eapods ear earl earls ears eas easant easantry easants ebble ebbles ecan ecans eck \
     ecked ecking eckish ecks eculiar eculiarities eculiarity edal edals edantic eddle \
     eddled eddles eddling edestrian edestrians eek eeked eeking eeks eel eeled eeling eels \
     eep eeped eeping eeps eer eered eering eerless eerlessly eers eevish eg egged egging \
     egs elican elicans elt elted elting elts en enalize enalized enalizes enalizing \
     enalties enalty encil encils endulum endulums enetrate enetrated enetrates enetrating \
     enguin enguins eninsula eninsulas ennies enny ens ension ensions ensive ensively eonies \
     eony eople eoples epper eppering epperoni epperonis eppers eppery er erambulate \
     erambulated erambulates erambulating erceive erceived erceives erceiving ercentage \
     ercentages erception erceptions erceptive erceptively erch erched erches erching \
     ercolate ercolated ercolates ercolating eremptory erfect erfected erfecting erfection \
     erfections erfectly erfects erforate erforated erforates erforating erform erformance \
     erformances erformed erformer erformers erforming erforms erfume erfumes erfunctory \
     erhaps erilous erilously eriod eriodic eriodically eriods erish erished erishes \
     erishing eriwinkle eriwinkles erjure erjured erjures erjuring erjury ermanent \
     ermanently ermeate ermeated ermeates ermeating ermissible ermission ermissions ermit \
     ermits ermitted ermitting ernicious erniciously erpetual erpetually erpetuate \
     erpetuated erpetuates erpetuating erplex erplexed erplexes erplexing ersecute ersecuted \
     ersecutes ersecuting ersevere ersevered erseveres ersevering ersist ersisted ersistence \
     ersistences ersistent ersistently ersisting ersists erson ersonal ersonalities \
     ersonality ersonalized ersonally ersonified ersonifies ersonify ersonifying ersons \
     erspective erspectives ersuade ersuaded ersuades ersuading ersuasive ersuasively ert \
     ertain ertained ertaining ertains ertinent erturb erturbed erturbing erturbs eruse \
     erused eruses erusing ervade ervaded ervades ervading erverse esky essimism ester \
     estered esters et eter eters etition etitioned etitioning etitions etrified etrifies \
     etrify etrifying etrol etrols ets etted etter etting etty etulant etunia etunias ewter \
     ewters harmacies harmacist harmacists harmacy hase hased hases hasing heasant heasants \
     henomena henomenal henomenally henomenon henomenons hilanthropy hilosopher hilosophers \
     hilosophical hilosophically hilosophies hilosophize hilosophized hilosophizes \
     hilosophizing hilosophy hlegmatic hone honed hones honing hoto hotograph hotographed \
     hotographer hotographers hotographies hotographing hotographs hotography hotos hrase \
     hrases hysical hysically hysician hysicians hysics iano ianos iccolo iccolos ick ickaxe \
     ickaxes icked icker ickers icking ickle ickles icks icnic icnics icture ictured ictures \
     icturesque icturing ie iece ieced ieces iecing ier ierce ierced ierces iercing iers ies \
     iety ig igeon igeons iglet iglets igs ile iled iles ilfer ilfers iling ill illage \
     illaged illages illaging illar illars illow illows ills ilot ilots in inch inched \
     inches inching ine ineapple ineapples inecone inecones ined ines ining ink inks inned \
     inning inpoint inpointed inpointing inpoints ins inwheel inwheels ioneer ioneered \
     ioneering ioneers ious iously ipe iped iper ipes iping irate irates istachio istachios \
     it itch itched itcher itchers itches itchfork itchforks itching ithier ithy itied ities \
     itiful itifully its ity itying ivot ivoted ivots izza izzas lacate lacated lacates \
     lacating lace laced lacemat lacemats lacement laces lacid lacing lagiarize lagiarized \
     lagiarizes lagiarizing lague lagued lagues laguing lain lainer lainest lainly lains \
     laintive laintively lan lane lanes lanet lanets lank lanks lankton lanktons lanned \
     lanner lanning lans lant lantation lantations lanted lanting lants laster lasters \
     lastic lastics late lates latform latforms latinum latinums latypus lausible lausibly \
     lay layed layer layers layful layfully laying lays lea lead leaded leading leads leas \
     leasant lease leased leases leasing leasure leasures leat leated leating leats ledge \
     ledged ledges ledging lentiful lentifully lied lies light lod lodded lodding lods lonk \
     lonked lonking lonks lot lots lotted lotting lover lovers low lowed lowing lows luck \
     lucked lucking lucks lug lugable luggable lugged lugging lugs lum lumber lumbers lummet \
     lummets lump lums lunder lunders lunge lunged lunges lunging lural luralize lurally lus \
     lush ly lying oach oached oaches oaching ocket ockets ockmark ockmarked ockmarking \
     ockmarks oem oems oet oetic oetries oetry oets oignant oint ointed ointer ointers \
     ointing ointless ointlessly oints oise oison oisoned oisoning oisons oke oked oker okes \
     oking ole oles olice olices olicies olicy olish olished olishes olishing olite olitely \
     olitical olitically olitician oliticians oliticize oliticized oliticizes oliticizing \
     olitics oll ollinate ollinated ollinates ollinating olls ollute olluted ollutes \
     olluting ollution ollutions olyester olyesters ompous ompously ond onder ondered \
     ondering onderous onderously onders onds onies ontificate ontificated ontificates \
     ontificating ony oodle oodles ool ools oor oorer oorly op opcorn opcorns opped oppies \
     opping oppy ops opular opularity opulate opulated opulates opulating opulation \
     opulations orch orches orcupine orcupines ore ored ores oring ork orks orpoise orpoises \
     orridge orridges ort ortable ortably ortal ortend ortended ortending ortends ortfolio \
     ortfolios ortion ortions ortly ortrait ortraits ortray ortrayed ortraying ortrays orts \
     ose osed oses osh osing osition ositional ositioned ositioning ositions ositive \
     ositively ossess ossessed ossesses ossessing ossession ossessions ossessive \
     ossibilities ossibility ossible ossiblity ossibly ossum ossums ost ostal ostbox \
     ostboxes ostcard ostcards osted oster osterity osters osting ostman ostmen ostpone \
     ostponed ostpones ostponing osts ot otato otatoes otent otential otentially otentials \
     othole otholes otion otions ots otter otteries otters ottery ouch ouches oultries \
     oultry ounce ounced ounces ouncing ound ounded ounding ounds our oured ouring ours out \
     outed outing outs overties overty owder owders ower owerful owerfully owers ractical \
     ractically ractice racticed ractices racticing ragmatic ragmatism rairie rairies raise \
     raised raises raising rance ranced rances rancing rattle rattled rattles rattling rawn \
     rawns ray rayed rayer rayers raying rays reach reached reacher reachers reaches \
     reaching recarious recariously recaution recautions recede receded recedent recedents \
     recedes receding recious reciously recise recisely recision recisions reclude recluded \
     recludes recluding recocious recociously redate redated redates redating redator \
     redators redatory redetermine redetermined redetermines redetermining redict redictable \
     redicted redicting rediction redictions redictive redicts redispose redisposed \
     redisposes redisposing reen reened reening reens refer referable reference references \
     referred referring refers regnancies regnancy regnant rejudge rejudged rejudges \
     rejudging rejudice rejudices reliminary remature rematurely remeditate remeditated \
     remeditates remeditating remise remises remium remiums reoccupied reoccupies reoccupy \
     reoccupying reparation reparations repare repared repares reparing reposition \
     repositions reposterous reposterously rescribe rescribed rescribes rescribing \
     rescription rescriptions reselect reselected reselecting reselects resence resences \
     resent resentation resentations resented resenting resently resents reservation";

const WORDS_P2: &'static str = "reservations reserve reserved reserves reserving reside resided residencies residency \
     resident residents resides residing ress ressed resses ressing ressure ressures \
     ressurize ressurized ressurizes ressurizing restige restiges resumably resume resumed \
     resumes resuming resumptuous resumptuously retend retended retending retends retense \
     retentious retentiously rettier rettiest rettily rettiness retty retzel retzels revail \
     revailed revailing revails revaricate revaricated revaricates revaricating revent \
     revented reventing revents revious reviously rey reyed reying reys rice riced rices \
     ricing rick ricked ricking rickly ricks ride rided rides riding ried ries riest riests \
     riggish rim rimarily rimary rime rimed rimer rimes riming rimitive rimitively rimrose \
     rimroses rince rinces rincess rincesses rincipal rincipally rincipals rinciple \
     rinciples rint rintable rinted rinter rinters rinting rints rior riorities \
     rioritization rioritize rioritized rioritizes rioritizing riority rism rison risoner \
     risoners risons rissy rivacies rivacy rivate rivately rivatize rivatized rivatizes \
     rivatizing rivilege rivileges rize rizes robabilities robability robable robably robe \
     robed rober robes robing roblem roblems rocedural rocedure rocedures roceed roceeded \
     roceeding roceedings roceeds rocess rocessed rocesses rocessing rocession rocessions \
     roclaim roclaimed roclaiming roclaims rocure rocured rocurement rocures rocuring rod \
     rodded rodding rodigious rodigiously rods roduce roduced roducer roducers roduces \
     roducing roduct roduction roductions roductive roductively roductivity roductize \
     roductized roducts rofane rofanities rofanity rofess rofessed rofesses rofessing \
     rofession rofessional rofessionals rofessions rofessor rofessors roffer roffered \
     roffers roficient rofile rofiles rofit rofitable rofiteer rofiteered rofiteering \
     rofiteers rofits rofound rofuse rognosticate rognosticated rognosticates rognosticating \
     rogram rogrammable rogrammed rogrammer rogrammers rogramming rograms rogress rogressed \
     rogresses rogressing rogressive rogressively rohibit rohibited rohibiting rohibitively \
     rohibits roject rojected rojecting rojection rojections rojective rojector rojectors \
     rojects roliferate roliferated roliferates roliferating rolific rolong rolonged \
     rolonging rolongs rominent rominently romise romised romises romising romote romoted \
     romotes romoting romotion romotional romotions rompt rompted rompter rompting romptly \
     rompts romulgate romulgated romulgates romulgating ronoun ronounce ronounced ronounces \
     ronouncing ronouns roof roofread roofreaded roofreading roofreads roofs rop ropaganda \
     ropagandas ropagate ropagated ropagates ropagating ropel ropels roper roperly roperties \
     roperty rophet rophets roping ropitiate ropitiated ropitiates ropitiating roportion \
     roportional roportioned roportioning roportions roposal roposals ropose roposed roposes \
     roposing roposition ropositioned ropositioning ropositions ropped ropper rops rosaic \
     rosecute rosecuted rosecutes rosecuting rosecutor rosecutors roselytize roselytized \
     roselytizes roselytizing rospect rospects rosper rosperities rosperity rosperous \
     rosperously rospers rostrate rostrated rostrates rostrating rotect rotected rotecting \
     rotection rotections rotective rotectively rotects rotein roteins rotest rotested \
     rotesting rotests rotocol rotocols rotrude rotruded rotrudes rotruding roud rovable \
     rove roved roves rovide rovided rovider roviders rovides roviding rovince rovinces \
     rovincial rovincially roving rovision rovisional rovisioned rovisioning rovisions \
     rovocative rovocatively rovoke rovoked rovokes rovoking rowess rowl rowled rowling \
     rowls rudence rudent rudently rudish runable rune runed runes runing ry rying \
     sychological sychologically sychologies sychologist sychologists sychology ub uberty \
     ublic ublically ublication ublications ublicities ublicity ublicize ublicized ublicly \
     ublics ublish ublished ublisher ublishers ublishes ublishing ubs udding uddings uddle \
     uddles uerile uff uffed uffin uffing uffins uffs ugnacious ugnaciously ull ulled ulling \
     ullover ullovers ulls ulse ulsed ulses ulsing ulverize ulverized ulverizes ulverizing \
     uma umas ummel ummels ump umped umpernickel umpernickels umping umpkin umpkins umps \
     unch unched unches unching unctual unctuality unctually unish unished unishes unishing \
     unishment unishments uny upil upils uppet uppets uppies uppy urchase urchased urchases \
     urchasing ure urely urer urge urged urges urging urified urifies urify urifying urity \
     urloin urloined urloining urloins urple urpose urposes urr urred urring urrs urse urses \
     ursue ursued ursues ursuing ursuit ursuits ush ushcart ushcarts ushed usher ushes \
     ushing ushy ut utrefied utrefies utrefy utrefying utrid uts utting uzzle uzzled uzzles \
     uzzling yramid yramids ython ythons";

const WORDS_Q: &'static str = "uadruple uadrupled uadruples uadrupling uaff uaffed uaffing uaffs uail uails uaint uake \
     uaked uakes uaking ualification ualifications ualified ualifier ualifiers ualifies \
     ualify ualifyer ualifying ualities uality uantified uantifier uantifiers uantifies \
     uantify uantifying uantities uantity uarantine uarantined uarantines uarantining uarrel \
     uarrels uarrelsome uarter uarters uartz uartzes uash uashed uashes uashing ueasy ueen \
     ueens uell uelled uelling uells uench uenched uenches uenching ueried uerier ueries \
     uerulous uerulously uery uerying uest uestion uestionable uestioned uestioning \
     uestionnable uestionnaire uestionnaires uestions uests ueue ueued ueues ueuing uibble \
     uibbled uibbles uibbling uiche uiches uick uicken uickened uickening uickens uicker \
     uickest uickly uiet uieted uieter uieting uietly uietness uiets uill uills uilt uilts \
     uince uinces uintuple uintupled uintuples uintupling uirky uit uite uits uitting uiver \
     uivers uixotic uiz uizzed uizzes uizzing uotation uotations uote uoted uotes uoting";

const WORDS_R1: &'static str = "abbit abbits abid accoon accoons ace aced aces acily acing acism ack acket ackets acks \
     acy adar adars adiant adiate adiated adiates adiating adiation adiations adiator \
     adiators adical adically adii adio adios adish adishes aft afts age ages agged agweed \
     agweeds aid aided aiding aids ail ailroad ailroads ails ailway ailways ain ainbow \
     ainbows aindrop ained ainer aining ains ainy aise aised aises aisin aising aisins ake \
     aked akes aking akish allied allies ally allying am amble ambled ambles ambling \
     ambunctious ambunctiously ammed amming ampant ampart amparts ams an anch anches ancid \
     ancorous ancorously andom andomize andomized andomly andomness ang ange anged anges \
     anging ank anked anking ankle ankled ankles ankling anks ansack ansacked ansacking \
     ansacks ansom ansoms ant anted anting ants ap apacious apaciously aped apid apidly \
     apids apping apport aps are arely arer ash aspberries aspberry aspy at atchet atcheting \
     atchets ate ated ates ather atified atifies atify atifying ating atings atio ation \
     ational ationale ationalize ationalized ationalizes ationalizing ationally ationed \
     ationing ations atios ats attle attled attles attlesnake attlesnakes attling aucous \
     aucously avage avaged avages avaging ave aved avel avels aven avenous avenously avens \
     aves aving avish avished avishes avishing aw azor azors each eachable eached eaches \
     eaching eacquire eact eacted eacting eaction eactions eactivate eactivated eactivates \
     eactivating eacts ead eadable eader eaders eadily eadiness eading eadings eadjust \
     eadjusted eadjusting eadjusts eads eady eaffirm eaffirmed eaffirming eaffirms eal \
     ealign ealigned ealigning ealignment ealigns ealistic ealistically ealities eality \
     ealization ealize ealized ealizes ealizing eallocate eallocation eally ealm ealms eap \
     eaped eaper eaping eappear eappeared eappearing eappears eapplied eapplies eapply \
     eapplying eappraise eappraised eappraises eappraising eaps ear eared earing earm earmed \
     earming earms earrange earranged earrangement earrangements earranges earranging ears \
     eason easonable easonably easoned easoning easons eassemble eassembled eassembles \
     eassembling eassert easserted easserting easserts eassess eassessed eassesses \
     eassessing eassign eassurance eassure eassured eassures eassuring eattach eawaken \
     eawakens ebase ebel ebellion ebels eboot ebound ebounded ebounding ebounds ebroadcast \
     ebuff ebuffed ebuffing ebuffs ebuild ebuildable ebuilding ebuilds ebuilt ebuke ebuked \
     ebukes ebuking ebut ebuts ecalculate ecalculation ecall ecalled ecalling ecalls ecant \
     ecanted ecanting ecants ecapture ecaptured ecaptures ecapturing ecast ecede eceded \
     ecedes eceding eceipt eceipts eceive eceived eceiver eceivers eceives eceiving ecent \
     ecently eception eceptions ecession ecessions echarge echarged echarges echarging \
     echeck ecipe ecipes ecipient ecipients eciprocate eciprocated eciprocates eciprocating \
     ecitations ecite ecited ecites eciting eckless ecklessly ecklessness eckon eckoning \
     eckons eclaim eclaimable eclaimed eclaiming eclaims eclassified eclassifies eclassify \
     eclassifying ecline eclined eclines eclining eclusive eclusively ecode ecognition \
     ecognitions ecognizable ecognize ecognized ecognizer ecognizers ecognizes ecognizing \
     ecoil ecoiled ecoiling ecoils ecollect ecollected ecollecting ecollects ecommend \
     ecommendation ecommendations ecommended ecommender ecommenders ecommending ecommends \
     ecompense ecompensed ecompenses ecompensing ecompile ecompress ecompute econcile \
     econciled econciles econciling econfiguration econfigure econnect econnected \
     econnecting econnects econsider econsidered econsiders econstruct econstructed \
     econstructing econstruction econstructs econvene econvened econvenes econvening ecord \
     ecordable ecorded ecorder ecording ecordings ecords ecount ecounted ecounting ecounts \
     ecoup ecouped ecouping ecoups ecover ecoverable ecovered ecoveries ecovering ecovers \
     ecovery ecreate ecreated ecreates ecreating ecreation ecreations ecruit ecruited \
     ecruiting ecruits ectified ectifies ectify ectifying ecuperate ecuperated ecuperates \
     ecuperating ecur ecurring ecurs ecurse ecycle ecycled ecycler ecycles ecycling ed edden \
     eddens edeclaration edeclare edecorate edecorated edecorates edecorating edeem edeemed \
     edeeming edeems edefine edefined edefines edefining edefinition edemption edesign \
     edesigned edesigning edesigns edevelop edevelops edid edirect edirected edirecting \
     edirection edirector edirects ediscover ediscovering ediscovers edisplay edistributable \
     edistribute edistributed edistributes edistributing edistribution edo edoes edoing \
     edolent edone edouble edoubled edoubles edoubling edraft edrafted edrafting edrafts \
     edraw edrawing edress edressed edresses edressing educe educed educes educing eduction \
     eductions edwood edwoods eed eeds eef eel eeled eeling eels eenable eenact eenacted \
     eenacting eenacts eencode eenter eentered eenters eestablish eestablished eestablishes \
     eestablishing eevaluate eevaluated eevaluates eevaluating eeves efactor efashion \
     efashioned efashioning efashions efer eferee eferees eference eferences eferer eferred \
     eferrer eferrers eferring efers efetch efill efilled efilling efills efinance efinanced \
     efinances efinancing efine efined efinement efinements efines efining efit efits eflect \
     eflected eflecting eflection eflections eflective eflects efloat eflog eflow efocus \
     eform eformat eformation eformed eforming eforms eformulate eformulated eformulates \
     eformulating efrain efrained efraining efrains efresh efreshed efreshes efreshing \
     efrigerator efrigerators efuel efueled efueling efuels efuge efugee efugees efuges \
     efund efunded efunding efunds efurbish efurbished efurbishes efurbishing efusal efusals \
     efuse efused efuses efusing efute efuted efutes efuting egain egained egaining egains \
     egal egale egaled egales egaling egally egard egarded egarding egardless egards \
     egenerate egenerated egenerates egenerating egeneration egime egimes egion egional \
     egionally egions egister egistered egistering egisters egistration egistrations egress \
     egressed egresses egressing egret egrets egroup egrouped egrouping egroups egular \
     egularities egularize egularized egularly egulate egulated egulates egulating egulation \
     egulations ehabilitate ehabilitated ehabilitates ehabilitating ehabilitation \
     ehabilitations ehash ehashed ehashes ehashing ehearse ehearsed ehearses ehearsing \
     ehouse ehoused ehouses ehousing eign eigned eigning eigns eimburse eimbursed eimburses \
     eimbursing eimplement eindeer eindeers einforce einforced einforces einforcing einsert \
     einstall einstallation einstate einstated einstates einstating eintroduce einvent \
     einvented einventing einvents einvest einvested einvesting einvests eissue eissued \
     eissues eissuing eiterate eiterated eiterates eiterating eject ejected ejecting ejects \
     ejoice ejoiced ejoices ejoicing ejoin ejuvenate ejuvenated ejuvenates ejuvenating \
     ekindle ekindled ekindles ekindling elace elapse elapsed elapses elapsing elate elated \
     elates elating elation elational elations elationship elationships elative elatively \
     elativeness elatives elax elaxation elaxations elaxed elaxes elaxing elay elayed \
     elaying elays elearn elearned elearning elearns eleasable elease eleased eleaser \
     eleasers eleases eleasing elegate elegated elegates elegating elent elented elenting \
     elentless elentlessly elents elevance elevances elevant eliability eliable eliably \
     eliance eliances elicense elied elief elies elieve elieved elieves elieving eligion \
     eligions eligious eligiously elink elinquish elinquished elinquishes elinquishing elish \
     elished elishes elishing elive elived elives eliving eload eloaded eloading eloads \
     elocatable elocate elocated elocates elocating elocation eluctant eluctantly ely elying \
     emade emain emained emainer emaining emains emake emakes emaking emand emanded emanding \
     emands emark emarkable emarkably emarked emarking emarks emarried emarries emarry \
     emarrying emediation emedied emedies emedy emedying emember emembered emembering \
     emembers emind eminded eminder eminders eminding eminds emodel emodeled emodels emorse \
     emorseful emorsefully emorseless emorselessly emote emotely emount emovable emoval \
     emovals emove emoved emoves emoving emunerate emunerated emunerates emunerating \
     enaissance ename enamed enames enaming end ended ender endered enderer enderers \
     endering enders ending ends enege eneged eneges eneging enegotiate enew enewable enewed \
     enewing enews enice enounce enounced enounces enouncing enovate enovated enovates \
     enovating ent ented enting ents enumber enumbered enumbering enumbers eopen eopened \
     eopening eopens eorder eordered eordering eorders eorganization eorganize eorganized \
     eorganizes eorganizing epack epackage epackaged epackages epackaging epaid epaint \
     epainted epainting epaints epair epaired epairing epairs eparse epart epatriate \
     epatriated epatriates epatriating epay epaying epays epeal epealed epealing epeals \
     epeat epeatable epeated epeatedly epeater epeating epeats epel epels epent epentance \
     epentant epented epenting epents epetition epetitions ephrase ephrased ephrases \
     ephrasing eplace eplaceable eplaced eplacement eplacements eplaces eplacing eplant \
     eplanted eplanting eplants eplay eplayed eplaying eplays eplenish eplenished eplenishes \
     eplenishing eplied eplies eply eplying epoint eport eported eporter eporters eporting \
     eports epose eposed eposes eposing eposition epossess epossessed epossesses epossessing \
     epresent epresentable epresentation epresentations epresentative epresentatives \
     epresented epresenting epresents epress epressed epresses epressing eprieve eprieved \
     eprieves eprieving eprimand eprimanded eprimanding eprimands eprint eprinted eprinting \
     eprints eprocess eprocessed eprocesses eprocessing eproduce eproduced eproducer \
     eproduces eproducing eproduction eproductions eprogram eprogramming eprograms eprotest \
     eptile eptiles epublic epublics epublish epudiate epudiated epudiates epudiating \
     epugnant epulse epulsed epulses epulsing epulsive epulsively epurpose epurposed \
     epurposes epurposing eputable eputation eputations equest equested equester equesters";

const WORDS_R2: &'static str = "equesting equests equire equired equirement equirements equires equiring equisition \
     equisitioned equisitioning equisitions eran eread eroute erouted eroutes erouting erun \
     erunning eruns escale escan eschedule escheduled eschedules escheduling escue escued \
     escues escuing esearch esearched esearcher esearchers esearches esearching eseed \
     eselect esell esellers eselling esells esemblance esemblances esemble esembled esembles \
     esembling esend esent esented esentful esentfully esenting esents eservation \
     eservations eserve eserved eserves eserving eservoir eservoirs eset esets esetting \
     esettle esettled esettles esettling eshape eshaped eshapes eshaping eshuffle eshuffled \
     eshuffles eshuffling eside esided esidence esidences esident esidents esides esiding \
     esign esignation esignations esigned esigning esigns esilient esist esistance \
     esistances esistant esisted esisting esists esize esold esolute esolution esolutions \
     esolvable esolve esolved esolver esolvers esolves esolving esonate esonated esonates \
     esonating esort esorted esorting esorts esound esounded esounding esounds esource \
     esourceful esourcefully esources espect espectable espected espectful especting \
     espective espectively espects espire espired espires espiring esplendent espond \
     esponded espondent espondents esponder esponders esponding esponds esponse esponses \
     esponsibilities esponsibility esponsible est estart estartable estarted estarting \
     estarts estate estated estates estating estaurant estaurants ested esting estive \
     estively estless estlessly estock estocked estocking estocks estoration estorations \
     estore estored estores estoring estrain estrained estraining estrains estrict estricted \
     estricting estriction estrictions estrictive estricts estructure estructured \
     estructures estructuring ests esubmit esubmits esubmitted esubmitting esult esulted \
     esulting esults esumable esume esumed esumes esuming esurface esurfaced esurfaces \
     esurfacing esurrect esurrected esurrecting esurrects esuscitate esuscitated esuscitates \
     esuscitating esynchronize etail etailer etailers etain etained etaining etains etake \
     etaken etakes etaking etaliate etaliated etaliates etaliating etell etelling etells \
     ethink ethinking ethinks ethought ethrow eticent etire etired etirement etirements \
     etires etiring etitle etold etook etool etooled etooling etools etort etorted etorting \
     etorts etouch etouched etouches etouching etrace etraced etraces etracing etract \
     etracted etracting etracts etrain etrained etraining etrains etransmission etransmit \
     etreat etreated etreating etreats etrievable etrieve etrieved etrieves etrieving \
     etrofit etrofits eturn eturned eturning eturns eunified eunifies eunify eunifying \
     eunion eunions eunite eunited eunites euniting eusable euse eused euses eusing \
     evalidate evamp evamped evamping evamps eveal evealed evealing eveals evel evelation \
     evelations evels evenge evenged evenges evenging evenue evenues everberate everberated \
     everberates everberating evere evered everence everent everes evering everse eversed \
     everses eversing eversion eview eviewed eviewer eviewers eviewing eviews evise evised \
     evises evising evision evisions evisit evisited evisiting evisits evitalize evitalized \
     evitalizes evitalizing evival evivals evive evived evives eviving evoke evoked evoker \
     evokers evokes evoking evolt evolted evolting evolts evolution evolutions evolve \
     evolved evolves evolving eward ewarded ewarding ewards ewind ewinding ewinds ewire \
     ewired ewires ewiring eword eworded ewording ewords ework eworked eworking eworks \
     ewound ewrite ewrites ewriting ewritten ewrote hetorical hetorically hino hinoceros \
     hinos hubarb hubarbs hyme hymed hymes hyming hythm hythms ib ibald ibbon ibbons ibs ice \
     ices ich icher ichest icochet icochets id iddance idden idding iddle iddled iddles \
     iddling ide ider iders ides idge idges idicule idiculed idicules idiculing idiculous \
     idiculously iding ids ifle ifles ight ighteous ighteously ighteousness ightly ightness \
     ights igid igidly igor igorous igorously ing inglet inglets ings inse insed inses \
     insing iot iotous iotously iots ip ipe ipen ipens ipped ipper ipping ips ise isen ises \
     ising isk isked isking isks isky itual ituals ival ivally ivalry ivals iver ivers ivet \
     ivets oad oadrunner oadrunners oads oam oamed oaming oams oar oared oaring oars oast \
     oasted oasting oasts ob obbed obberies obbery obbing obe obes obin obins obot obots obs \
     obust obuster obustly obustness ock ocked ocket ockets ocking ocks od ode odeo odeos \
     ods ole oles oll olled olling olls omance omances omantic omanticize omanticized \
     omanticizes omanticizing omp omped omping omps oof oofs oom ooms ooster oosters oot \
     ooted ooting ootless oots ope opes ose osebud osebuds osemaries osemary oses ot otate \
     otated otates otating otation otations ots otted otten otting ough oughly ound ounded \
     ounder ounding ounds ouse oused ouses ousing outable oute outed outer outers outes \
     outine outines outing ove oved oves oving ow owboat owboats owdy owed owing ows oyal \
     oyally oyalties oyalty ub ubbed ubber ubbers ubbing ubbish ubbishes ubies ubs uby uckus \
     udder udders uddy ude udely udeness uder ue ued ueful uefully ues uffle uffled uffles \
     uffling ug ugbies ugby ugged ugs uin uined uing uining uins ule uled uler ulers ules \
     uling um umble umbled umbles umbling uminate uminated uminates uminating umor umors ums \
     un ung unnable unner unners unning unnings uns unway unways upture uptured uptures \
     upturing ural urally ush ushed ushes ushing ust usted ustic usting ustle ustled ustles \
     ustling usts usty utabaga utabagas uthless uthlessly ye yes";

const WORDS_S1: &'static str = "abotage abotaged abotages abotaging ack acked acking acks acred acrifice acrificed \
     acrifices acrificing ad adden addens addle addles adly adness afe afely afeness afer \
     afest afeties afety affron affrons ag agacious agaciously age ages agged agging ags aid \
     ail ailboat ailboats ailed ailing ailings ailor ailors ails aint ainthood aints alad \
     alads alamander alamanders alaries alary ale ales alesman alesmen alient allow almon \
     almons alon alons alt alts alty alutation alutations alute aluted alutes aluting alvage \
     alvageable alvaged alvages alvaging alvation ame ample ampled amples ampling anctified \
     anctifies anctify anctifying anction anctioned anctioning anctions anctity and andal \
     andals andcastle andcastles andpaper andpapers andpiper andpipers ands andwich \
     andwiches ane anely aner ang anguine anitization anitize anitized anitizer anitizers \
     anitizes anitizing anity ank ap aper apling aplings apped apphire apphires apping aps \
     arcasm arcastic ardine ardines ardonic assy at atchel atchels atellite atellites \
     atirize atirized atirizes atirizing atisfaction atisfactions atisfactorily atisfactory \
     atisfiable atisfied atisfies atisfy atisfying aturate aturated aturates aturating \
     aturday auce aucer aucers auces aucy auerkraut auerkrauts aunter aunters ausage ausages \
     avage ave aved aver avers aves aving avings avor avors aw awdust awdusts awed awing \
     awmill awmills aws axophone axophones ay ayers aying ays calable cald calded calding \
     calds cale caled caler cales caling callop callops camper campers can candal candalize \
     candalized candalizes candalizing candals canned canner canners canning cans car carab \
     carabs carce carcely carcity care carecrow carecrows cared cares carf carfs carier \
     cariest caring carlet carper carpers carring cars cary cathing catter cattered \
     cattering catters cavenge cavenged cavenges cavenging cenario cenarios cene cenes cenic \
     chedule cheduled cheduler chedulers chedules cheduling cheme chemed chemes cheming \
     cholar cholarly cholars cholarship cholarships chool chools cience ciences cientific \
     cientist cientists cissors coff coffed coffing coffs cold colded colding colds conce \
     conces cone cones coop cooped cooping coops cooter cooters cope copes corch corched \
     corches corching core cored corer cores coring corn corned corning corns corpion \
     corpions cour coured couring cours cout couted couting couts cowl cowled cowling cowls \
     cramble crambled crambles crambling crape craped crapes craping cratch cratched \
     cratches cratching crawl crawled crawling crawls crawny cream creamed creaming creams \
     creech creeched creeches creeching creen creened creener creenful creening creens crew \
     crewed crewing crews cribble cribbled cribbles cribbling crimp crimped crimping crimps \
     cript cripts croll crolls crub crubbed crubbing crubs cruffy crupulous crupulously \
     crutinize crutinized crutinizes crutinizing crutiny culpt culpted culpting culptor \
     culptors culpts culpture culptures cupper cuppers curried curries currilous currilously \
     curry currying cuttle cuttled cuttles cuttling cythe cythes ea eagull eagulls eahorse \
     eahorses eal ealed ealing eals eamless eamlessly earch earchable earched earches \
     earching eas eashell eashells eashore easide eason easoned easons eat eated eating eats \
     eaweed eaweeds ecede eceded ecedes eceding eclude ecluded ecludes ecluding econd \
     econdarily econdary econds ecrecy ecret ecretaries ecretary ecrete ecreted ecretes \
     ecreting ecrets ection ections ector ectors ecular ecure ecured ecurely ecures ecuring \
     ecurities ecurity edate edentary educe educed educes educing ee eed eeds eedy eeing eek \
     eekable eeking eeks eem eemed eeming eemingly eemly eems een ees egment egments \
     egregate egregated egregates egregating eize eized eizes eizing eldom elect electable \
     elected electing election elections elective electively electivity elects elf elfish \
     elfishness ell eller ellers elling ells elves emester emesters enate enates enator \
     enators end ender enders ending ends enior ensation ensational ensationally ensations \
     ense ensed enseless enses ensible ensibly ensing ensitive ensitively ensitiveness \
     ensitivities ensitivity ensuous ensuously ent entence entenced entences entencing \
     entiment entimental entimentally entiments eparate eparated eparately eparates \
     eparating eptember equence equences equester equesters equoia equoias erenade erenaded \
     erenades erenading erendipitous erendipitously erene erenity ergeant ergeants eries \
     erious eriously ervant ervants erve erved erver erveral erverless ervers erves ervice \
     erviced ervices ervicing ervile erving ervitude ession essions et ets ettable etter \
     etters etting ettings ettle ettled ettlement ettlements ettles ettling even eventeen \
     eventeenth eventh eventy ever everal evere evered everely evering everities everity \
     evers ew ewed ewer ewers ewing ewn ews extant extants exual exually habby hack hackle \
     hackled hackles hackling hacks hade haded hader haders hades hading hadow hadows haft \
     hafts hake haken hakes haking haky hall hallow hallowly hallowness hame hameful \
     hamefully hameless hamelessly hames hampoo hampoos hamrock hamrocks hanghai hanghaied \
     hanghaiing hanghais hape haped hapely haper hapers hapes haping harable hare hared \
     hares haring hark harks harp harpen harpening harpens harper harply hatter hattered \
     hatters have haved haves having hawl hawls he hear heared hearer hearing hears heathe \
     heathed heathes heathing heaves hed hedding heds heep heepish heeps heer heet heets \
     helf hell hells helter helters helves hepherd hepherded hepherding hepherds hield \
     hielded hielding hields hift hifted hifting hifts hifty hine hined hines hining hiny \
     hip hipped hipping hips hipyard hipyards hirk hirked hirking hirks hirt hirts hiver \
     hivers hock hocked hocking hocks hoddy hoe hoelace hoelaces hoes hone hook hoot hooting \
     hoots hop hoplift hoplifted hoplifting hoplifts hopped hopping hoppings hops hore hores \
     hort hortage hortages hortbread hortbreads hortchange hortchanged hortchanges \
     hortchanging horten hortened hortening hortens horter hortest hortlist hortlisted \
     hortlisting hortlists hortly hortness horts hot hots hould houlder houlders hout houted \
     houting houts hove hoved hovel hoveling hovels hoves hoving how howed hower howers \
     howing hown hows howy hrank hred hredded hredding hreds hrewd hriek hrieked hrieking \
     hrieks hrill hrilled hrilling hrills hrimp hrimps hrine hrines hrink hrinker hrinking \
     hrinks hrivel hrivels hrub hrubs hrug hrugged hrugging hrugs hrunk huck hucked hucking \
     hucks hudder hudders huffle huffled huffles huffling hun hunned hunning huns hunt \
     hunted hunting hunts hut huts hutting hy hyness ibling iblings ick ickle ickles ide \
     idecar idecars ides idestep idesteps idetrack idetracked idetracking idetracks idewalk \
     idewalks ideways iege ieges igh ighed ighing ighs ight ights ign ignable ignal ignalled \
     ignalling ignals ignature ignatures igned igner igners ignificance ignificances \
     ignificant ignificantly ignified ignifies ignify ignifying igning ignpost ignposts igns \
     ilence ilences ilent ilently ilk ilks ilky illiness illy ilo ilos ilver ilvers \
     ilverware ilverwares imilar imilarities imilarity imilarly immer immers imper impers \
     imple impler implest implicities implicity implified implifies implify implifying imply \
     imulate imulated imulates imulating in ince incere incerely incerity inful infully ing \
     inge inged inger ingers inges inging ingle ingler ingly ings inister ink inking inks \
     inned inning ins ip iphon iphons ipped ipping ips ister isters it ite ites its itter \
     itting ituate ituated ituates ituating ituation ituations ix ixteen ixteenth ixth ixty \
     ize ized izes izing izzle izzled izzles izzling kate kateboard kateboards kated kates \
     kating katings kedaddle kedaddled kedaddles kedaddling keleton keletons keptical \
     keptically kepticism ketch ketched ketches ketching kew kewed kewer kewers kewing kews \
     ki kid kidded kidding kids kied kies kiing kiings kill killed killet killets killful \
     killfully kills kim kimmed kimming kims kin kins kip kippable kipped kipping kips kirt \
     kirts kis kittish kulk kulked kulking kulks kull kulls kunk kunks ky kylark kylarks \
     kyscraper kyscrapers lack lacken lackens lain lam lammed lamming lams lander landers \
     lap lapdash lapped lapping laps lash lashed lashes lashing lather lathers latternly \
     laughter laughters lave laver lavers lavery laves lay laying lays leazy led leds leek \
     leep leeping leeps leepwalk leepwalked leepwalking leepwalks leepy leet leets leeve \
     leeves leigh leighs lender lept lew lice liced lices licing lick lid lide lider liders \
     lides liding light lightest lightly lim limmer link linked linking links lip lipped \
     lipper lippers lippery lipping lips lit lits litting lobber lobbers log logan logans \
     logged logging logs loop loops lope loped lopes loping loppier loppy losh loshed loshes \
     loshing lot loth lothful lothfully loths lots louch louched louches louching low lowed \
     lower lowest lowing lowly lowness lows lug luggish luggishness lugs lumber lumbers lump \
     lumped lumping lumps lung lur lurred lurring lurs ly mack macked macking macks mall \
     maller mallest mart marten martens marter martly martphone martphones mash mashed \
     mashes mashing mear meared mearing mears mell melled melling mells melt mile miled \
     miles miling mirk mirked mirking mirks moke moked mokes moking molder molders mooth \
     moothed moother moothing moothly moothness mooths mother mothers mudge mudged mudges \
     mudging mug muggle muggled muggles muggling nack nacks nail nails nake nakes nap \
     napdragon napdragons napped napping nappy naps nare nared nares naring narky narl \
     narled narling narls natch natched natches natching neak neaked neaker neakers neaking \
     neaks neaky neer neered neering neers neeze neezed neezes neezing nicker nickers nide \
     nider niff niffed niffers niffing niffs nigger niggers nip nipped nipping nips nobbish \
     nooty nooze noozed noozes noozing nore nored nores noring nort norted norting norts \
     notty now nowdrift nowdrifts nowdrop nowdrops nowed nowflake nowing nowman nowplow \
     nowplows nows nowshoe nowshoes nowy nub nubbed nubbing nubs nug nuggle nuggled nuggles";

const WORDS_S2: &'static str = "nuggling o oak oaked oaking oaks oap oaps oar oared oaring oars ob obbed obbing ober \
     obers obriety obs occer occers ocial ocialize ocialized ocializes ocializing ocially \
     ocieties ociety ock ocket ockets ocks oda odas odden ofa ofas oft often oftens ofter \
     oftly oftware oftwares oil oiled oiling oils olace olar olarized old older olders \
     oldier oldiers ole olely olemn olicit olicitation olicitations olicited olicitous \
     olicitously olicits olid olidarity olidified olidifies olidify olidifying olidness \
     olitary olitude olution olutions olve olved olver olvers olves olving omber ombrero \
     ombreros ome omebody omeday omehow omeone omersault omersaulted omersaulting omersaults \
     omething ometime ometimes omewhat omewhere on ong ongbird ongbirds ongs onorous \
     onorously ons oon oothe oothed oothes oothing ophisticated ordid ore orely orrel orrels \
     orrow orrows orry ort ortable orted orter orters orting orts ought oul ouls ound ounded \
     ounding oundness ounds oup oups our ource ourceful ources outh ouths overeign \
     overeignty ow owed owing ows oybean oybeans pace paces paceship paceships pacious \
     paciously pan paniel paniels panned panner panning pans pare pared pares paring park \
     parked parking parkle parkled parkler parklers parkles parkling parks parrow parrows \
     parse parsely parseness parsity partan pat patial patially patter patters patula \
     patulas pawn pawned pawning pawns peak peaker peakers peaking peaks pearhead pearheaded \
     pearheading pearheads pearmint pearmints pecial pecialist pecialists pecialization \
     pecializations pecialize pecialized pecializes pecializing pecially pecialness pecies \
     pecific pecifically pecificities pecificity pecified pecifier pecifiers pecifies pecify \
     pecifying pecimen pecimens pectacle pectacles pectacular pectacularly pectator \
     pectators pectrum pectrums peculate peculated peculates peculating peculative \
     peculatively ped peech peeches peed peeded peeding peeds pell pelled pelling pells pelt \
     pend pending pendings pends pent pew pewed pewing pews phere pheres pice pices picy \
     pider piders pied piers pies piffy pill pilled pilling pills pilt pin pinach pinaches \
     pindly pine pineless pinelessly pines pinet pinets pinner pinners pinning pins pirit \
     pirited pirits piritual piritually pit pite pited piteful pitefully pites piting pits \
     pitting plash plashed plashes plashing play played playing plays plendid plendor plice \
     pliced plices plicing plit plits plitter plitting plurge plurged plurges plurging \
     plutter plutters poil poiled poiling poils poilt poke poken ponge ponges ponsor \
     ponsored ponsoring ponsors ponsorship pontaneous pontaneously poon poons poradic \
     poradically port ports portsmanship pot potlight potlights pots potted potting pouse \
     pouses pout pouted pouting pouts prain prained praining prains prang prawl prawled \
     prawling prawls pray prayed praying prays pread preading preads prightly pring pringing \
     prings prinkle prinkled prinkles prinkling print printed printing prints prout prouted \
     prouting prouts pruce pruces prung pry pun pur purious puriously purn purned purning \
     purns purred purring purs putter putters py pying quabble quabbled quabbles quabbling \
     quad quads qualid quall qualled qualling qualls quander quanders quare quared quares \
     quaring quash quashed quasher quashes quashing quat quats quatted quatting queak \
     queaked queaking queaks queal quealed quealing queals queamish queeze queezed queezes \
     queezing quelch quelched quelches quelching quid quids quint quinted quinting quints \
     quirm quirmed quirming quirms quirrel quirrels quirt quirted quirting quirts tab tabbed \
     tabbing tabilities tability tabilization tabilize tabilized tabilizes tabilizing table \
     tables tably tabs tack tackable tacked tacking tacks tadium tadiums taff taffed taffing \
     taffs tage tagecoach tagecoaches taged tages tagger taggered taggering taggers taging \
     taid tain tained taining tains tair taircase taircases tairs take taked takes taking \
     tale taleness talk talked talking talks tall talled talling tallion tallions talls \
     talwart tamina tammer tammers tamp tamped tampede tampeded tampedes tampeding tamping \
     tamps tance tances tanch tanched tanches tanching tand tandard tandardize tandardized \
     tandardizing tandardly tandards tanding tands tank taple tapled taples tapling tar \
     tardom tare tared tares tarfish tarfishes taring tark tarling tarlings tars tart tarted \
     tarter tarters tarting tartle tartled tartles tartling tarts tarvation tarve tarved \
     tarves tarving tash tashed tashes tashing tate tated tateful tatehood tateless tately \
     tatement tatements tates tatic tatically tating tation tationary tationed tationing \
     tations tatistical tatistically tatistics tatue tatues tatuesque tatus tatuses taunch \
     tave taved taves taving tay tayed taying tays teadfast teadied teadies teadily teady \
     teadying teak teaks teal tealing teals tealth tealthy team teamboat teamboats teamed \
     teaming teams teel teels teep teer teered teering teerings teers tem temmed temmer \
     temming tems tep tepladder tepladders tepped tepper teppers tepping teps tereotype \
     tereotyped tereotypes tereotyping terile terilize terilized terilizes terilizing tern \
     tethoscope tethoscopes tew tewardship tewed tewing tews tick tickiness ticking ticks \
     ticky tiff tiffen tiffens tifle tifled tifles tifling tigma tigmatize tigmatized \
     tigmatizes tigmatizing till tilted timulate timulated timulates timulating timuli \
     timulus ting tinging tingray tingrays tings tingy tink tinking tinks tipulate tipulated \
     tipulates tipulating tir tirred tirring tirrup tirrups tirs titch titched titches \
     titching toat toats tock tocked tocking tockings tockpile tockpiled tockpiles \
     tockpiling tocks todgy toic tole tolen tomach tomachs tomp tomped tomping tomps tone \
     tones tonewall tonewalled tonewalling tonewalls tood tool tools toop tooped tooping \
     toops top topped topping tops topwatch topwatches torable torage torages tore tored \
     tores tories toring tork torks torm tormed torming torms tormy tory tout tove toves tow \
     towed towers towing tows traddle traddled traddles traddling trafe trafed trafes \
     trafing traggle traggled traggler traggles traggling traight traighten traightened \
     traightens train trained training trains trand trands trange trangely trangeness \
     tranger trangers trangle trangled trangles trangling trap trapped trapping traps \
     trategic trategically trategies trategy tratified tratifies tratify tratifying traw \
     trawberries trawberry traws tray trayed traying trays treak treaked treaking treaks \
     tream treamable treamed treaming treamline treamlined treamlines treamlining treams \
     treet treets trength trengthen trengthened trengthening trengthens trengths tress \
     tressed tresses tressing tretch tretched tretches tretching trict tricter trictest \
     trictly trictness tride trident trider trides triding trike trikes triking tring \
     tringing tringize tringized tringizing trings trip tripped tripping trips trive trived \
     triven trives triving trode troke troked trokes troking troll trolled trolling trolls \
     trong tronger trongest trongly trove truck tructural tructurally tructure tructured \
     tructures tructuring trudel trudels truggle truggled truggles truggling trung trut \
     truts trutted trutting tubborn tubbornness tuck tudent tudents tudied tudies tudio \
     tudios tudious tudiously tudy tudying tuff tuffed tuffing tuffs tuffy tultified \
     tultifies tultify tultifying tumble tumbled tumbles tumbling tun tung tunk tunned \
     tunning tuns tunt tunted tunting tunts tupendous tupendously tupid tupidity tupidly \
     turdy tutter tuttering tutters tyle tyles tymie tymied tymies tymiing uave ubcontract \
     ubcontracted ubcontracting ubcontracts ubdue ubdued ubdues ubduing ubject ubjected \
     ubjecting ubjective ubjectively ubjects ubjugate ubjugated ubjugates ubjugating ublet \
     ublets ublimate ublimated ublimates ublimating ublime ubmarine ubmarines ubmerge \
     ubmerged ubmerges ubmerging ubmission ubmissions ubmit ubmits ubmitted ubmitter \
     ubmitters ubmitting ubscribe ubscribed ubscriber ubscribers ubscribes ubscribing \
     ubsequent ubsequently ubside ubsided ubsides ubsiding ubsidize ubsidized ubsidizes \
     ubsidizing ubstance ubstances ubstantial ubstantially ubstitutable ubstitute ubstituted \
     ubstitutes ubstituting ubsume ubsumed ubsumes ubsuming ubtle ubtlely ubtleties ubtlety \
     ubtly ubtract ubtracted ubtracting ubtracts uburb uburban uburbs ubvert ubverted \
     ubverting ubverts ubway ubways ucceed ucceeded ucceeding ucceeds uccess uccesses \
     uccessful uccessfully uccessive uccessively uccessor uccessors uccinct uccinctly uccor \
     uccors uccumb uccumbed uccumbing uccumbs uch uck ucked ucking ucks udden uddenly ue ued \
     ues uffer uffered uffering uffers uffice ufficed uffices ufficient ufficiently ufficing \
     ugar ugars uggest uggested uggesting uggestion uggestions uggests uicide uicides uing \
     uit uitable uitably uitcase uitcases uited uiting uits ulk ulked ulking ulks ulky ullen \
     ultry um ummaries ummarize ummarized ummarizes ummarizing ummary ummer ummers ummit \
     ummits ummon ummons umptuous umptuously ums un unbathe unbathed unbathes unbathing \
     unday undial undials unflower unflowers ung unk unlight unlights unny unrise unrises \
     uns unset unsets unshine unshines uper uperb upercilious uperciliously uperficial \
     uperficially uperior uperiority uperiorly upermarket upermarkets upersede uperseded \
     upersedes uperseding upervise upervised upervises upervising upervisor upervisors upper \
     uppers upplant upplanted upplanting upplants upplement upplemental upplemented \
     upplementing upplements upplied upplier uppliers upplies upply upplying upport \
     upportable upported upporter upporters upporting upports uppose upposed upposedly \
     upposes upposing uppress uppressed uppresses uppressing upreme ure urely urer urf \
     urface urfaces urfed urfing urfings urfs urge urged urgeon urgeons urgeries urgery \
     urges urgical urgically urging urly urmise urmised urmises urmising urmount urmounted \
     urmounting urmounts urpass urpassed urpasses urpassing urplus urprise urprised urprises \
     urprising urrender urrendered urrenders urround urrounded urrounding urrounds urvey \
     urveyed urveying urveys urvival urvivals urvive urvived urvives";

const WORDS_S3: &'static str = "urviving urvivor urvivors uspect uspected uspecting uspects uspend uspended uspending \
     uspends uspense uspicion uspicions uspicious uspiciously ustain ustained ustaining \
     ustains velte waddle waddled waddles waddling wagger waggers wallow wallowed wallowing \
     wallows wam wamp wamps wan wanky wans wap wapped wapping waps warm warmed warming warms \
     wathe wathed wathes wathing way wayed waying ways wear wearing wears weat weated weater \
     weaters weating weats weaty weep weeping weeps weet weeter well welled welling wells \
     welter welters wept werve werved werves werving wift wiftly wim wimming wimmings wims \
     windle windled windles windling wing winging wings wirl wirled wirling wirls witch \
     witched witcher witches witching wivel wivels wollen woop wooped wooping woops word \
     wordfish wordfishes words wore worn wum wung ycamore ycamores yllabi yllable yllables \
     ymbol ymbolic ymbolically ymbolize ymbolized ymbolizes ymbolizing ymbols ympathetic \
     ympathies ympathize ympathized ympathizes ympathizing ympathy ymptom ymptoms ynagogue \
     ynagogues ynchronization ynchronize ynchronized ynchronizes ynchronizing yndrome \
     yndromes ynthesize ynthesized ynthesizes ynthesizing ynthetic ynthetically yrup yrups \
     ystem ystematic ystematically ystems";

const WORDS_T: &'static str = "abbies abby able ables ablet ablets abulate abulated abulates abulating aciturn ackle \
     ackled ackles ackling acky aco acos actful actfully actical actically actless actlessly \
     adpole adpoles ag agged agger agging ags ail ailor ailored ailoring ailors ails aint \
     ainted ainting aints ake aken akes aking ale alent alented alents ales alk alked alking \
     alks all aller allest allied allies ally allying ambourine ambourines ame amed ames \
     aming amp amped amper ampered ampering ampers amping amps an angerine angerines angible \
     angle angled angles angling angy ank anks anned anner anning ans antalize antalized \
     antalizes antalizing ap ape aped apes apestries apestry aping apir apirs apped apping \
     aps arantula arantulas ardy arget argets argetted argetting arnish arnished arnishes \
     arnishing arried arries arry arrying art artan artans ask asks aste asted asteful \
     astefully asteless astelessly astes asting asty attle attled attles attling aught aunt \
     aunted aunting aunts aut awdry ax axed axes axi axing axis ea each eacher eachers \
     eaches eaching eacup eacups eakettle eakettles eal eam eams eamwork eapot eapots ear \
     earful earfully earing ears eas ease eased eases easing easpoon easpoons echnical \
     echnically echnician echnicians echnique echniques echnologies echnology eddies eddy \
     edious ediously een eenager eenagers eens eeter eeters eeth eethe eethed eethes eething \
     elecast elecasted elecasting elecasts elephone elephoned elephones elephoning elescope \
     elescopes elevise elevised elevises elevising elevision elevisions ell elling ells \
     emper emperamental emperamentally emperance emperature emperatures empering empers \
     empestuous empestuously emple emples emporarily emporary empt emptation empted empting \
     empts en enacious enaciously enacity enant enants end ended endencies endency ender \
     enderize enderized enderizes enderizing enderness ending ends ennes ennis ense ension \
     ensions ent entacle entacles entative entatively entativeness enth ents epid erm \
     erminal erminals erminate erminated erminates erminating ermite ermites erms errible \
     erribly errified errifies errify errifying erritorial erritorially erritories erritory \
     error errorist errorists errors erse ersely est estable ested ester esters estified \
     estifies estify estifying estimonies estimony esting ests esty ether ethering ethers \
     ext exts exture extures han hank hanked hankful hankfully hanking hankless hanklessly \
     hanks hat haw hawed hawing haws he heater heaters heft hefts heir heirs hem heme hemes \
     hemselves hen heologies heology heoretical heoretically heories heory herapies herapist \
     herapists herapy here hereafter hereby herefore herefrom herein hereof hermal hermally \
     hermos hese heses hesis hey hick hicken hickens hicker hicket hickets hickness hief \
     hieves high highs himble himbles hin hing hings hink hinker hinkers hinking hinks hinly \
     hinned hinning hins hird hirst hirsty hirteen hirteenth hirtieth hirty his histle \
     histles hither horn horns horny horough horoughly hose hough hought houghtful \
     houghtfully houghts housand housands housandth hrash hrashed hrashes hrashing hread \
     hreadbare hreads hreat hreaten hreatened hreatens hreats hree hresh hreshed hreshes \
     hreshing hreshold hresholds hrew hrice hrift hrifty hrill hrilled hrilling hrills hrive \
     hrived hrives hriving hroat hroats hrob hrobbed hrobber hrobbing hrobs hrone hrones \
     hrottle hrottled hrottles hrottling hrough hroughout hrow hrowing hrown hrows hrush \
     hrushes hrust hrusting hrusts hud hudded hudding huds humb humbs hump humped humping \
     humps hunder hundering hunderous hunderously hunders hunderstorm hursday hus hwart \
     hwarted hwarting hwarts hyme hymes iara iaras ick icked icker icket ickets icking ickle \
     ickled ickles ickling icks idal idally ide ides idied idier idies idily idiness idy \
     idying idyness ie ied ies iger igers ight ighten ightened ightening ightens ighter \
     ightest ightly iing ile iles ill ilt ilted ilting ilts imber imbers ime imed imeless \
     imelessly imer imers imes imid iming imings imorous imorously in inge inged inges \
     inging ingle ingled ingles ingling iniest ininess inker inkering inkers ins insel \
     insels int inted inting ints iny ip ipped ipping ipple ippled ipples ippling ips ipsy \
     iptoe iptoed iptoeing iptoes ire ired ireless irelessly ires iresome iring issue issues \
     itanic itillate itillated itillates itillating itle itles itter itters o oad oadied \
     oadies oads oadstool oadstools oady oadying oast oasted oaster oasters oasting oasts \
     obacco obaccos oboggan oboggans oday oddle oddled oddler oddlers oddles oddling oe oes \
     offee offees ogether oil oiled oilet oilets oiling oils old olerance olerances olerant \
     olerate olerated olerates olerating oll olled olling olls omahawk omahawks omato \
     omatoes omorrow one ones ongue ongues onight oo ook ool ools ooth oothbrush oothbrushes \
     oothpaste oothpastes ooths ootle ootled ootles ootling op opaz opazes opic opics opped \
     opping opple oppled opples oppling ops orch orches ore orment ormented ormenting \
     orments orn ornado ornados orpedo orpedoed orpedoes orpedoing ortilla ortillas ortoise \
     ortoises ortuous ortuously oss ossed osses ossing otal otalled otalling otally otals \
     otter otters oucan oucans ouch ouched ouches ouching ouchy ough our oured ouring ourism \
     ourist ourists ournament ournaments ours ousle ousled ousles ousling out outed outing \
     outs ow oward owards owed owel owels ower owering owers owing own owns owpath owpaths \
     ows oxic oy oys race raceable raced races racing rack rackable racked racker rackers \
     racking racks ractable ractor ractors rade raded rader raders rades rading radition \
     raditional raditionally raditions raffic raffics ragedies ragedy ragic rail railed \
     railer railers railing rails rain rained rainer rainers raining rainings rains raipse \
     raipsed raipses raipsing rait raits ram rammel rammels rample rampled ramples rampling \
     rams ranquil ranquility ransaction ransactional ransactions ranscend ranscended \
     ranscending ranscends ranscribe ranscribed ranscribes ranscribing ransfer ransferable \
     ransferrable ransferred ransferring ransfers ransfigure ransfigured ransfigures \
     ransfiguring ransform ransformable ransformation ransformations ransformed ransformer \
     ransformers ransforming ransforms ransgress ransgressed ransgresses ransgressing \
     ransition ransitional ransitions ranslatable ranslate ranslated ranslates ranslating \
     ranslation ranslations ransmission ransmissions ransmit ransmits ransmitted ransmitting \
     ransparent ransparently ranspire ranspired ranspires ranspiring ransplant ransplanted \
     ransplanting ransplants ransport ransportation ransported ransporting ransports \
     ranspose ransposed ransposes ransposing rap rappable rapped rapping raps rash rashes \
     ravel raveled raveler ravelers ravelling ravels raversable raverse raversed raverses \
     raversing rawl rawled rawler rawlers rawling rawls ray rays reacherous reacherously \
     reachery read reading reads reason reasure reasured reasures reasuries reasuring \
     reasury reat reated reaties reating reatment reatments reats reaty reble rebled rebles \
     rebling ree reehouse reehouses rees rek rekked rekking reks relles rellis remble \
     rembled rembles rembling remendous remendously remor remors remulous remulously \
     renchant rend rends respass respassed respasses respassing rial rials riangle riangles \
     ribal ribally ribe ribes ribute ributes rick ricked rickier rickiest ricking rickle \
     rickled rickles rickling ricks ricky ricycle ricycles ried ries rigger riggerable \
     riggered riggerer riggerers riggering riggerized riggers rillion rim rimmed rimming \
     rims rip ripod ripods ripped ripping rips rite riumph riumphed riumphing riumphs rivia \
     rivial rivially rod rodden rolley rolleys rombone rombones roop roops rophies rophy \
     ropical ropically rot rots rotted rotting rouble roubled roubles roubling rounce \
     rounced rounces rouncing rousers rout routs rowel rowels ruck rucks ruculent rudge \
     rudged rudges rudging rue ruely ruer ruly rumpet rumpets runcate runcated runcates \
     runcating rundle rundled rundles rundling runk runks rust rusted rusting rusts \
     rustworthiness rustworthy ruth ruthful ruthfully ruths ry rying sunami sunamis uba ubas \
     ube ubes uck ucked ucker ucking ucks uesday ug ugboat ugboats ugged ugging ugs uition \
     uitions ulip ulips umble umbled umbles umbling umor umors umultuous umultuously una \
     unable unas une uned unes uning unnel unnels urban urbans urbulent urgid urkey urkeys \
     urmoil urn urned urner urning urnip urnips urns urnstile urnstiles urquoise urquoises \
     urtle urtles usk usks ussle ussled ussles ussling utor utors weezers welfth welve \
     wentieth wenty wice widdle widdled widdles widdling wig wigs wilight wilights win \
     winkle winkled winkles winkling wins wist wisted wister wisting wists witch witched \
     witches witching wo ype yped ypeless ypes ypewriter ypewriters yphoon yphoons ypical \
     ypically yping yrannies yrannize yrannized yrannizes yrannizing yranny";

const WORDS_U: &'static str = "biquitous biquitously glier gliness gly kulele kuleles ltimate ltimately lulate lulated \
     lulates lulating mbrella mbrellas nable nacceptable nambiguous nanimous nanimously \
     napply nassign nassuming navailable naware nbiased nbind nblessed nblock nbound nbreak \
     nburden nburdens ncanny ncertain ncertainties ncertainty ncle nclean nclear ncles \
     ncomfortable ncomfortably ncomment ncommon ncompress nconscious nconsciously \
     nconsciousness ncork ncouth ncover ncovered ncovering ncovers nctuous nctuously \
     ndaunted ndefine ndelete ndeploy ndeprecate nder nderallocation ndercurl nderestimate \
     nderestimated nderestimates nderestimating nderflow ndergone nderground nderline \
     ndermine ndermined ndermines ndermining nderneath nderpass nderpasses nderpin \
     nderpinned nderpins nderrate nderrated nderrates nderrating nderscore nderscored \
     nderscores nderscoring nderstand nderstandable nderstandably nderstanding nderstandings \
     nderstate nderstated nderstates nderstating nderstood ndertaken ndertook ndervalue \
     ndervalued ndervalues ndervaluing nderwent nderwrite nderwrites nderwriting nderwritten \
     nderwrote ndesirable ndid ndocument ndone ndulate ndulated ndulates ndulating nearth \
     nearthed nearthing nearths neasy nemployed nenroll nequal nescape nexpand nexpected \
     nexpectedly nexpectedness nexport nfair nfairness nfamiliar nfasten nfastens nflag \
     nflappable nfold nfolded nfolding nfolds nfortunate nfortunately ngainly ngrab \
     ngrateful ngratefully nhappy nhealthy nhelpful nhide nhinge nhinged nhinges nhinging \
     nicorn nicorns nified nifies niform niformity niformize niformly niforms nify nifying \
     nimport nimportant ninstall ninstallation nintentional ninteresting nion nions nique \
     niquely niqueness nit nite nited nites nities niting nits nity niversal niversally \
     niverse niverses niversities niversity nkempt nknown nleash nleashed nleashes nleashing \
     nless nlike nlikely nlimited nlink nload nloaded nloading nloads nlock nlocked nlocking \
     nlocks nlucky nmanage nmark nmarked nmask nmasked nmasking nmasks nmenu nmount \
     nnecessarily nnecessary nnerve nnerved nnerves nnerving nofficial northodox npack \
     nparse npipe npleasant npleasantness nportable nprecedented npredictable nprotect \
     nprotection nqualified nquote nravel nraveling nravels nread nreasonable nreasonably \
     nregister nreliable nrest nroll nrolled nrolling nrolls nruly nsafe nscrew nscrewed \
     nscrewing nscrews nscrupulous nscrupulously nseat nseated nseating nseats nseemly \
     nsetting nsettle nsettled nsettles nsettling nshare nshift nsightly nsound nspecific \
     nstable nstableness nsubscribe nsuccessful nsuitable nsure ntaint ntangle ntangled \
     ntangles ntangling ntie ntied nties ntiing ntil nto nusable nusual nusually nveil \
     nveiled nveiling nveils nwieldy nwind nwinder nwinding nwinds nwise nwound nwrap \
     nwrappable nwrapped nwrapping nwraps nzip nzipped nzipping nzips p pbeat pbraid \
     pbraided pbraiding pbraids pbringing pdatable pdate pdated pdater pdates pdating \
     pgradable pgrade pgraded pgrades pgrading pheld phold pholding pholds pload ploadable \
     ploaded ploader ploaders ploading ploads pon pper ppity proarious proariously proot \
     prooted prooting proots pset psets psetting pstage pstaged pstages pstaging pstairs \
     ptown pward pwards rban rbane rge rged rgencies rgency rgent rgently rges rging rn rns \
     s sable sage sages se sed seful sefully sefulness seless selessly ser sername sers ses \
     sher shers sing sual sually surp surped surping surps tilities tility tilization tilize \
     tilized tilizes tilizing topia tter tterly tters";

const WORDS_V: &'static str = "acant acate acated acates acating acation acations accinate accinated accinates \
     accinating accine accines acillate acillated acillates acillating acuous acuously acuum \
     acuums agrant ague aguely ain ainglorious aingloriously aliant alid alidate alidated \
     alidates alidating alidity alidly alise alises alley alleys alor aluable alue alued \
     alues aluing alve alves an andalize andalized andalizes andalizing anilla anillas anish \
     anished anishes anishing anity ans apid apor aporize aporized aporizes aporizing apors \
     ariable ariables ariation ariations aried aries arieties ariety ary arying ase ases ast \
     astly ault aulted aulting aults aunt aunted aunting aunts eer eered eering eers \
     egetable egetables egetate egetated egetates egetating ehicle ehicles ein eins \
     elocities elocity elvet elvets enal enally endor endorized endors enerate enerated \
     enerates enerating engeance engeful engefully enomous enomously ent ented entilate \
     entilated entilates entilating enting ents enture entured entures enturing enue enues \
     eracious eraciously eranda erandas erb erbal erbalize erbalized erbalizes erbalizing \
     erbally erbose erbosely erboseness erbosity erbs erdict erdicts erified erifier erifies \
     erify erifyer erifying ersatile erse erses ersion ersionless ersions ertical ertically \
     ertices ery essel essels est ests eteran eterans eto etoed etoes etoing ex exed exes \
     exing ia iable ibrant ibrate ibrated ibrates ibrating icious iciously ictim ictimize \
     ictimized ictimizes ictimizing ictims ictories ictory ideo ideos ie ied ies iew iewable \
     iewed iewer iewers iewing iews igilance igilant igilantly igor igorous igorously iing \
     ilified ilifies ilify ilifying illage illages illain illains illainy indicate indicated \
     indicates indicating indictive indictively ine inegar inegars ines ineyard ineyards \
     iolate iolated iolates iolating iolation iolations iolence iolences iolent iolet iolets \
     iolin iolins iper ipers irtual irtualize irtualized irtually irtue irtues irtuous \
     irtuously irus iruses isa isas isible isibly ision isions isit isited isiting isitor \
     isitors isits isual isualization isualize isualized isualizes isualizing isually ital \
     itality itally itamin itamins itiate itiated itiates itiating ivacious ivaciously ivid \
     ocal ocalize ocalized ocalizes ocalizing ocally odka odkas oice oiced oices oicing oid \
     oided oiding oids olatile olatility olcano olcanos ole oles olleyball olleyballs oluble \
     olume olumes oluminous oluminously oluntarily oluntary olunteer olunteered olunteering \
     olunteers omit omits oracious oraciously ote oted oter oters otes oting ow owed owel \
     owels owing ows oyage oyages ulcanize ulcanized ulcanizes ulcanizing ulgar ulgarity \
     ulnerable ulture ultures";

const WORDS_W: &'static str = "addle addled addles addling ade aded ades ading afer afers affle affled affles affling \
     aft afted afting afts ag age ages agged agging aggish agon agons ags ail ailed ailing \
     ails aist aists ait aited aiter aiters aiting aitress aitresses aits aivable aive aived \
     aiver aives aiving ake akeful akefully akes aking alk alked alker alkers alking alks \
     all allabies allaby allet allets allop allops allow allowed allowing allows alls alnut \
     alnuts alrus altz altzed altzes altzing and ander andering anders ands ane aned anes \
     angle angled angles angling aning ant anted anting anton ants ar arble arbled arbler \
     arblers arbles arbling ard arded arding ardrobe ardrobes ards arehouse arehouses arfare \
     ariness arm armed arming armly arms armth armths arn arned arner arning arnings arns \
     arp arped arping arps arrant arranted arranting arrants arrior arriors ars arthog \
     arthogs ary as ash ashcloth ashcloths ashed ashes ashing asp asps aste asted asteful \
     astefully astes asting atch atched atcher atchers atches atchful atchfully atching ater \
     aterfall aterfalls atermelon atermelons aters aterwheel aterwheels ave aved aver avers \
     aves aving ax axed axes axing ay ays ayward e eak eaken eakened eakening eakens eaker \
     eakest eakly eakness eaknesses ealth ealths ealthy ean eaned eaning eans eapon eapons \
     ear earied earies eariness earing ears eary earying easel easels eather eathered \
     eathers eathervane eathervanes eave eaver eaves eaving eb ebpage ebs ebsite ebsites ed \
     edded edding eddings edge edged edges edging ednesday eds eed eeded eeding eeds eek \
     eekday eekend eekends eekly eeks eep eeping eeps eepy eevil eevils eigh eighed eighing \
     eighs eight eights eird eirdest eirdly eirdness elcome elcomed elcomes elcoming eld \
     elded elding elds elfare elfares ell ellbeing ells elter elters ent ept ere est estern \
     esternize esternized esternizes esternizing ests estward et ets etted etting hack \
     hacked hacking hacks hale hales harf harfs hat hatever hatsoever heat heats heedle \
     heedled heedles heedling heel heelbarrow heelbarrows heeled heeler heeling heels heeze \
     heezed heezes heezing hen hence henever here hereas hereby herein hereupon herever het \
     hether hets hetted hetting hich hichever hile hilst himper himpers himsical himsically \
     hine hined hines hining hip hipped hippet hippets hipping hips hirl hirled hirling \
     hirlpool hirlpools hirls hisk hisked hiskey hiskeys hisking hisks hisper hispers histle \
     histled histles histling hite hiten hitens hither hittle hittled hittles hittling hiz \
     hizzed hizzing ho hoever hole holesome holly hom hoop hooped hooping hoops hose hy \
     icked ickedness ide idely iden idened idening idens ider idest idow idowed idowing \
     idows ield ielded ielding ields ife ig iggle iggled iggles iggling igs igwam igwams ild \
     ildcat ildcats ilder ilderness ildfire ildfires ildly ill illed illing illingness illow \
     illows illpower ills ilt ilted ilting ilts ily in ince inced inces incing ind inding \
     indmill indmills indow indows indowsill indowsills inds indshield indshields indy ine \
     ines ing ings ink inked inking inks inner inners inning innow innowed innowing innows \
     ins inship insome inter inters ipe iped ipes iping ire ired ireless ires iring iry \
     isdom isdoms ise isecrack isecracked isecracking isecracks isely iser ish ished ishes \
     ishful ishfully ishing isteria isterias istful istfully it itch itches ith ithdraw \
     ithdrawal ithdrawals ithdrawing ithdrawn ithdraws ithdrew ither ithered ithers ithheld \
     ithhold ithholding ithholds ithin ithout ithstand ithstanding ithstands ithstood itness \
     itnessed itnesses itnessing its itty ives izard izards obble obbled obbles obbling \
     oeful oefully oke oken olf olfed olfhound olfhounds olfing olfs olves oman omanhood \
     ombat ombats omen on onder ondered onderful onderfully ondering onders ondrous \
     ondrously oo ood oodchuck oodchucks ooden oodland oodlands oodpecker oodpeckers oods \
     oodshed oodsheds ooed ooes ooing ool ools oozy ord ords ordy ore ork orkable orkday \
     orked orker orkers orking orkout orkouts orkplace orkplaces orks orkshop orkshops orld \
     orlds orldwide orm ormed orming orms orn orried orries orry orrying orse orsen orsens \
     orship orships orst orth orthless orths orthy ould ound ounded ounding ounds ove oven \
     ow rangle rangled rangles rangling rap rapped rapper rappers rapping raps rath reath \
     reathe reathed reathes reathing reaths reck recked recking recks ren rench renched \
     renches renching rens rest rested resting restle restled restles restling restlings \
     rests retched riggle riggled riggles riggling ring ringing rings rinkle rinkled rinkles \
     rinkling rist rists ritable rite riter riters rites rithe rithed rithes rithing riting \
     ritings ritten rong rongly rongness rote rung ry";

const WORDS_X: &'static str = "enon enophobia enophobic ylophone ylophones";

const WORDS_Y: &'static str = "acht achts ak aks am ammer ammers ams ank anked anking anks ap apped apping aps ard \
     ards arn arns awn awned awning awns eah ear earn earned earning earns ears ell elled \
     elling ellow ells elp elped elping elps es esterday et ew ews ield ielded ielding ields \
     odel odels oghurt oghurts ogurt ogurts olk olks ou oung ounger oungest oungster \
     oungsters our ours ourself ourselves outh outhful outhfully ouths ummy";

const WORDS_Z: &'static str = "any ap apped apping aps eal ealous ealously ebra ebras eppelin eppelins ero est ested \
     esting ests esty igzag igzagged igzags inc incs innia innias ip ipped ipper ippers \
     ipping ips onal one oned ones oning oo oom oomed ooming ooms oos ucchini ucchinis";

/// Number of shelves.
const SHELF_COUNT: usize = 35;

/// The words on shelf `i`, in order.
closed spec fn shelf(i: int) -> Seq<Seq<char>> {
    spec_split(SHELVES@[i].1@, ' ').map_values(|rest: Seq<char>| seq![SHELVES@[i].0] + rest)
}

/// The words on shelf `i` and the later ones, in order.
closed spec fn words_from(i: int) -> Seq<Seq<char>>
    decreases SHELF_COUNT - i,
{
    if 0 <= i < SHELF_COUNT {
        shelf(i) + words_from(i + 1)
    } else {
        Seq::empty()
    }
}

/// The whole list, in order.
pub closed spec fn listed_words() -> Seq<Seq<char>> {
    words_from(0)
}

/// Whether `w` is a listed English word.
pub closed spec fn is_listed_word(w: Seq<char>) -> bool {
    exists|i: int| 0 <= i < SHELF_COUNT && #[trigger] shelf(i).contains(w)
}

proof fn lemma_shelf(i: int, w: Seq<char>)
    requires
        0 <= i < SHELF_COUNT,
    ensures
        shelf(i).contains(w) <==> (w.len() > 0 && w[0] == SHELVES@[i].0 && spec_split(
            SHELVES@[i].1@,
            ' ',
        ).contains(w.drop_first())),
{
    let parts = spec_split(SHELVES@[i].1@, ' ');
    if shelf(i).contains(w) {
        let k = choose|k: int| 0 <= k < shelf(i).len() && shelf(i)[k] == w;
        assert(shelf(i)[k] == seq![SHELVES@[i].0] + parts[k]);
        assert(w.drop_first() =~= parts[k]);
    }
    if w.len() > 0 && w[0] == SHELVES@[i].0 && parts.contains(w.drop_first()) {
        let k = choose|k: int| 0 <= k < parts.len() && parts[k] == w.drop_first();
        assert(shelf(i)[k] =~= w);
    }
}

proof fn lemma_words_from(i: int, w: Seq<char>)
    requires
        0 <= i <= SHELF_COUNT,
    ensures
        words_from(i).contains(w) <==> exists|j: int| i <= j < SHELF_COUNT && #[trigger] shelf(j).contains(w),
    decreases SHELF_COUNT - i,
{
    if i < SHELF_COUNT {
        lemma_words_from(i + 1, w);
        let a = shelf(i);
        let b = words_from(i + 1);
        assert(words_from(i) == a + b);
        if (a + b).contains(w) {
            let k = choose|k: int| 0 <= k < (a + b).len() && (a + b)[k] == w;
            if k < a.len() {
                assert(a[k] == w);
                assert(shelf(i).contains(w));
            } else {
                assert(b[k - a.len()] == w);
            }
        }
        if exists|j: int| i <= j < SHELF_COUNT && #[trigger] shelf(j).contains(w) {
            let j = choose|j: int| i <= j < SHELF_COUNT && #[trigger] shelf(j).contains(w);
            if j == i {
                let k = choose|k: int| 0 <= k < a.len() && a[k] == w;
                assert((a + b)[k] == w);
            } else {
                assert(b.contains(w));
                let k = choose|k: int| 0 <= k < b.len() && b[k] == w;
                assert((a + b)[k + a.len()] == w);
            }
        }
    }
}

/// A word is listed exactly when `words` gives it back.
pub proof fn law_listed_words(w: Seq<char>)
    ensures
        is_listed_word(w) <==> listed_words().contains(w),
{
    lemma_words_from(0, w);
}

/// Whether shelf `i` holds `w`, a word of at least one letter.
fn on_shelf(i: usize, w: &Vec<char>) -> (r: bool)
    requires
        i < SHELF_COUNT,
        w.len() > 0,
    ensures
        r == shelf(i as int).contains(w@),
{
    let n = w.len();
    proof {
        lemma_shelf(i as int, w@);
    }
    let shelf_letter = SHELVES[i].0;
    assert(shelf_letter == SHELVES@[i as int].0);
    if shelf_letter != w[0] {
        return false;
    }
    proof {
        assert(w@.subrange(1, n as int) =~= w@.drop_first());
    }
    let pack = chars_of(SHELVES[i].1);
    let parts = split_on(&pack, ' ');
    let mut k: usize = 0;
    while k < parts.len()
        invariant
            k <= parts.len(),
            i < SHELF_COUNT,
            n == w.len() > 0,
            views(parts@) == spec_split(SHELVES@[i as int].1@, ' '),
            forall|m: int| 0 <= m < k ==> parts@[m]@ != w@.drop_first(),
            w@.subrange(1, n as int) == w@.drop_first(),
            w@[0] == SHELVES@[i as int].0,
        decreases parts.len() - k,
    {
        if equals_range(&parts[k], w, 1, n - 1) {
            proof {
                assert(views(parts@)[k as int] == w@.drop_first());
                assert(spec_split(SHELVES@[i as int].1@, ' ').contains(w@.drop_first()));
                lemma_shelf(i as int, w@);
            }
            return true;
        }
        k += 1;
    }
    proof {
        let s = spec_split(SHELVES@[i as int].1@, ' ');
        if s.contains(w@.drop_first()) {
            let m = choose|m: int| 0 <= m < s.len() && s[m] == w@.drop_first();
            assert(views(parts@)[m] == parts@[m]@);
        }
    }
    false
}

/// Whether the list holds `w`.
pub fn listed(w: &Vec<char>) -> (r: bool)
    ensures
        r == is_listed_word(w@),
{
    if w.len() == 0 {
        proof {
            assert forall|j: int| 0 <= j < SHELF_COUNT implies !shelf(j).contains(w@) by {
                lemma_shelf(j, w@);
            }
        }
        return false;
    }
    let mut i: usize = 0;
    while i < SHELF_COUNT
        invariant
            i <= SHELF_COUNT,
            w.len() > 0,
            forall|j: int| 0 <= j < i ==> !#[trigger] shelf(j).contains(w@),
        decreases SHELF_COUNT - i,
    {
        if on_shelf(i, w) {
            return true;
        }
        i += 1;
    }
    false
}

/// Strings, by their characters.
pub open spec fn strings(v: Seq<String>) -> Seq<Seq<char>> {
    v.map_values(|s: String| s@)
}

/// Appends the words of shelf `i` to `out`.
fn push_shelf(out: &mut Vec<String>, i: usize)
    requires
        i < SHELF_COUNT,
    ensures
        strings(final(out)@) == strings(old(out)@) + shelf(i as int),
{
    let pack = chars_of(SHELVES[i].1);
    let parts = split_on(&pack, ' ');
    let ghost before = strings(out@);
    let letter = SHELVES[i].0;
    assert(letter == SHELVES@[i as int].0);
    assert(shelf(i as int).len() == parts.len());
    let mut k: usize = 0;
    while k < parts.len()
        invariant
            k <= parts.len(),
            i < SHELF_COUNT,
            letter == SHELVES@[i as int].0,
            views(parts@) == spec_split(SHELVES@[i as int].1@, ' '),
            shelf(i as int).len() == parts.len(),
            strings(out@) == before + shelf(i as int).take(k as int),
        decreases parts.len() - k,
    {
        let mut v: Vec<char> = Vec::new();
        v.push(letter);
        extend_chars(&mut v, &parts[k]);
        let word = string_of(&v);
        let ghost prev = out@;
        out.push(word);
        proof {
            assert(views(parts@)[k as int] == parts@[k as int]@);
            assert(shelf(i as int)[k as int] =~= v@);
            assert(shelf(i as int).take(k + 1) =~= shelf(i as int).take(k as int).push(v@));
            assert(strings(out@) =~= strings(prev).push(v@));
        }
        k += 1;
    }
    assert(shelf(i as int).take(parts.len() as int) =~= shelf(i as int));
}

/// Every listed word, in alphabetical order.
pub fn words() -> (r: Vec<String>)
    ensures
        strings(r@) == listed_words(),
{
    let mut out: Vec<String> = Vec::new();
    let mut i: usize = 0;
    assert(strings(out@) =~= Seq::<Seq<char>>::empty());
    while i < SHELF_COUNT
        invariant
            i <= SHELF_COUNT,
            strings(out@) + words_from(i as int) == words_from(0),
        decreases SHELF_COUNT - i,
    {
        let ghost prev = strings(out@);
        push_shelf(&mut out, i);
        proof {
            assert(words_from(i as int) == shelf(i as int) + words_from(i + 1));
            assert(strings(out@) + words_from(i + 1) =~= prev + words_from(i as int));
        }
        i += 1;
    }
    assert(words_from(SHELF_COUNT as int) =~= Seq::<Seq<char>>::empty());
    assert(strings(out@) + words_from(SHELF_COUNT as int) =~= strings(out@));
    out
}

/// `a` comes strictly before `b` in dictionary order, character by character (for ASCII
/// text, the order of `str`'s `<`).
pub open spec fn spec_before(a: Seq<char>, b: Seq<char>) -> bool
    decreases a.len(),
{
    if a.len() == 0 {
        b.len() > 0
    } else if b.len() == 0 {
        false
    } else if a[0] != b[0] {
        a[0] < b[0]
    } else {
        spec_before(a.drop_first(), b.drop_first())
    }
}

/// A word of one or more letters `a`–`z`.
pub open spec fn lowercase_word(w: Seq<char>) -> bool {
    w.len() > 0 && forall|i: int| 0 <= i < w.len() ==> 'a' <= #[trigger] w[i] <= 'z'
}

/// Every entry is a lowercase word, and each comes strictly before the next.
pub open spec fn sorted_lowercase(ws: Seq<Seq<char>>) -> bool {
    &&& forall|i: int| 0 <= i < ws.len() ==> lowercase_word(#[trigger] ws[i])
    &&& forall|i: int| 0 <= i < ws.len() - 1 ==> spec_before(#[trigger] ws[i], ws[i + 1])
}

/// What the list promises of itself: over 20,000 lowercase words in strictly increasing
/// order.
pub open spec fn word_list_shape(ws: Seq<Seq<char>>) -> bool {
    sorted_lowercase(ws) && ws.len() > 20_000
}

proof fn lemma_before_transitive(a: Seq<char>, b: Seq<char>, c: Seq<char>)
    requires
        spec_before(a, b),
        spec_before(b, c),
    ensures
        spec_before(a, c),
    decreases a.len(),
{
    if a.len() > 0 && b.len() > 0 && c.len() > 0 && a[0] == b[0] && b[0] == c[0] {
        lemma_before_transitive(a.drop_first(), b.drop_first(), c.drop_first());
    }
}

proof fn lemma_before_irreflexive(a: Seq<char>)
    ensures
        !spec_before(a, a),
    decreases a.len(),
{
    if a.len() > 0 {
        lemma_before_irreflexive(a.drop_first());
    }
}

/// A list in strictly increasing order holds every word once: of any two entries, the
/// earlier comes strictly before the later, so the two differ.
pub proof fn law_sorted_words_differ(ws: Seq<Seq<char>>, i: int, j: int)
    requires
        sorted_lowercase(ws),
        0 <= i < j < ws.len(),
    ensures
        spec_before(ws[i], ws[j]),
        ws[i] != ws[j],
    decreases j - i,
{
    if j == i + 1 {
        assert(spec_before(ws[i], ws[i + 1]));
    } else {
        law_sorted_words_differ(ws, i, j - 1);
        assert(spec_before(ws[j - 1], ws[(j - 1) + 1]));
        lemma_before_transitive(ws[i], ws[j - 1], ws[j]);
    }
    lemma_before_irreflexive(ws[i]);
}

/// Whether `a` comes strictly before `b`.
fn before(a: &Vec<char>, b: &Vec<char>) -> (r: bool)
    ensures
        r == spec_before(a@, b@),
{
    let mut i: usize = 0;
    assert(a@.skip(0) =~= a@ && b@.skip(0) =~= b@);
    while i < a.len() && i < b.len() && a[i] == b[i]
        invariant
            i <= a.len(),
            i <= b.len(),
            spec_before(a@, b@) == spec_before(a@.skip(i as int), b@.skip(i as int)),
        decreases a.len() - i,
    {
        let ghost (x, y) = (a@.skip(i as int), b@.skip(i as int));
        assert(x.drop_first() =~= a@.skip(i + 1));
        assert(y.drop_first() =~= b@.skip(i + 1));
        i += 1;
    }
    let ghost (x, y) = (a@.skip(i as int), b@.skip(i as int));
    if i == a.len() {
        i < b.len()
    } else if i == b.len() {
        false
    } else {
        assert(x[0] == a@[i as int] && y[0] == b@[i as int]);
        a[i] < b[i]
    }
}

/// Whether `w` is a lowercase word.
fn is_lowercase_word(w: &Vec<char>) -> (r: bool)
    ensures
        r == lowercase_word(w@),
{
    if w.len() == 0 {
        return false;
    }
    let mut i: usize = 0;
    while i < w.len()
        invariant
            i <= w.len(),
            forall|j: int| 0 <= j < i ==> 'a' <= #[trigger] w@[j] <= 'z',
        decreases w.len() - i,
    {
        if w[i] < 'a' || w[i] > 'z' {
            return false;
        }
        i += 1;
    }
    true
}

/// Checks, word by word, what the list promises of itself ([`word_list_shape`]). Verus
/// cannot read the list's text, so the promise is settled by running this check.
pub fn check_word_list() -> (r: bool)
    ensures
        r == word_list_shape(listed_words()),
{
    let list = words();
    let ghost ws = listed_words();
    let n = list.len();
    assert(ws.len() == n);
    assert forall|j: int| 0 <= j < n implies #[trigger] ws[j] == list@[j]@ by {
        assert(strings(list@)[j] == list@[j]@);
    }
    let mut i: usize = 0;
    let mut prev: Vec<char> = Vec::new();
    while i < n
        invariant
            i <= n == list.len() == ws.len(),
            ws == listed_words(),
            forall|j: int| 0 <= j < n ==> #[trigger] ws[j] == list@[j]@,
            i > 0 ==> prev@ == ws[i - 1],
            forall|j: int| 0 <= j < i ==> lowercase_word(#[trigger] ws[j]),
            forall|j: int| 0 <= j < i - 1 ==> spec_before(#[trigger] ws[j], ws[j + 1]),
        decreases n - i,
    {
        let cur = chars_of(list[i].as_str());
        assert(cur@ == ws[i as int]);
        if !is_lowercase_word(&cur) {
            assert(!lowercase_word(ws[i as int]));
            return false;
        }
        if i > 0 && !before(&prev, &cur) {
            assert(!spec_before(ws[i - 1], ws[(i - 1) + 1]));
            return false;
        }
        prev = cur;
        i += 1;
    }
    n > 20_000
}

} // verus!
