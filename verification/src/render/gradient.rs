use vstd::prelude::*;

verus! {

/// The colour maps that a pressure field can be drawn with.
#[derive(Clone, Copy, Debug, PartialEq, Eq, Structural)]
pub enum Gradient {
    Turbo,
    Viridis,
    Magma,
    Plasma,
    Inferno,
    Bw,
}

impl Default for Gradient {
    fn default() -> (gradient: Gradient)
        ensures
            gradient == Gradient::Turbo,
    {
        Gradient::Turbo
    }
}

/// Red, green and blue of a colour packed as `0xRRGGBB`.
pub open spec fn unpacked(packed: u32) -> (u8, u8, u8) {
    ((packed / 0x1_0000 % 0x100) as u8, (packed / 0x100 % 0x100) as u8, (packed % 0x100) as u8)
}

fn unpack(packed: u32) -> (rgb: (u8, u8, u8))
    ensures
        rgb == unpacked(packed),
{
    ((packed / 0x1_0000 % 0x100) as u8, (packed / 0x100 % 0x100) as u8, (packed % 0x100) as u8)
}

impl Gradient {
    /// The 256 colours of the map, from the lowest value to the highest,
    /// each packed as `0xRRGGBB`.
    pub open spec fn palette(&self) -> Seq<u32> {
        match self {
            Gradient::Turbo => TURBO@,
            Gradient::Magma => MAGMA@,
            Gradient::Viridis => VIRIDIS@,
            Gradient::Plasma => PLASMA@,
            Gradient::Inferno => INFERNO@,
            Gradient::Bw => BW@,
        }
    }

    /// Red, green and blue of the colour at position `index` of the map.
    pub fn color(&self, index: u8) -> (rgb: (u8, u8, u8))
        ensures
            rgb == unpacked(self.palette()[index as int]),
    {
        let packed: u32 = match self {
            Gradient::Turbo => TURBO[index as usize],
            Gradient::Magma => MAGMA[index as usize],
            Gradient::Viridis => VIRIDIS[index as usize],
            Gradient::Plasma => PLASMA[index as usize],
            Gradient::Inferno => INFERNO[index as usize],
            Gradient::Bw => BW[index as usize],
        };
        unpack(packed)
    }
}

/// The Turbo rainbow map, each colour packed as `0xRRGGBB`.
pub const TURBO: [u32; 256] = [
    0x30123B, 0x311542, 0x32184A, 0x341B51, 0x351E58, 0x36215F, 0x372365, 0x38266C,
    0x392972, 0x3A2C79, 0x3B2F7F, 0x3C3285, 0x3C358B, 0x3D3791, 0x3E3A96, 0x3F3D9C,
    0x4040A1, 0x4043A6, 0x4145AB, 0x4148B0, 0x424BB5, 0x434EBA, 0x4350BE, 0x4353C2,
    0x4456C7, 0x4458CB, 0x455BCE, 0x455ED2, 0x4560D6, 0x4563D9, 0x4666DD, 0x4668E0,
    0x466BE3, 0x466DE6, 0x4670E8, 0x4673EB, 0x4675ED, 0x4678F0, 0x467AF2, 0x467DF4,
    0x467FF6, 0x4682F8, 0x4584F9, 0x4587FB, 0x4589FC, 0x448CFD, 0x438EFD, 0x4291FE,
    0x4193FE, 0x4096FE, 0x3F98FE, 0x3E9BFE, 0x3C9DFD, 0x3BA0FC, 0x39A2FC, 0x38A5FB,
    0x36A8F9, 0x34AAF8, 0x33ACF6, 0x31AFF5, 0x2FB1F3, 0x2DB4F1, 0x2BB6EF, 0x2AB9ED,
    0x28BBEB, 0x26BDE9, 0x25C0E6, 0x23C2E4, 0x21C4E1, 0x20C6DF, 0x1EC9DC, 0x1DCBDA,
    0x1CCDD7, 0x1BCFD4, 0x1AD1D2, 0x19D3CF, 0x18D5CC, 0x18D7CA, 0x17D9C7, 0x17DAC4,
    0x17DCC2, 0x17DEBF, 0x18E0BD, 0x18E1BA, 0x19E3B8, 0x1AE4B6, 0x1BE5B4, 0x1DE7B1,
    0x1EE8AF, 0x20E9AC, 0x22EBA9, 0x24ECA6, 0x27EDA3, 0x29EEA0, 0x2CEF9D, 0x2FF09A,
    0x32F197, 0x35F394, 0x38F491, 0x3BF48D, 0x3FF58A, 0x42F687, 0x46F783, 0x4AF880,
    0x4DF97C, 0x51F979, 0x55FA76, 0x59FB72, 0x5DFB6F, 0x61FC6C, 0x65FC68, 0x69FD65,
    0x6DFD62, 0x71FD5F, 0x74FE5C, 0x78FE59, 0x7CFE56, 0x80FE53, 0x84FE50, 0x87FE4D,
    0x8BFE4B, 0x8EFE48, 0x92FE46, 0x95FE44, 0x98FE42, 0x9BFD40, 0x9EFD3E, 0xA1FC3D,
    0xA4FC3B, 0xA6FB3A, 0xA9FB39, 0xACFA37, 0xAEF937, 0xB1F836, 0xB3F835, 0xB6F735,
    0xB9F534, 0xBBF434, 0xBEF334, 0xC0F233, 0xC3F133, 0xC5EF33, 0xC8EE33, 0xCAED33,
    0xCDEB34, 0xCFEA34, 0xD1E834, 0xD4E735, 0xD6E535, 0xD8E335, 0xDAE236, 0xDDE036,
    0xDFDE36, 0xE1DC37, 0xE3DA37, 0xE5D838, 0xE7D738, 0xE8D538, 0xEAD339, 0xECD139,
    0xEDCF39, 0xEFCD39, 0xF0CB3A, 0xF2C83A, 0xF3C63A, 0xF4C43A, 0xF6C23A, 0xF7C039,
    0xF8BE39, 0xF9BC39, 0xF9BA38, 0xFAB737, 0xFBB537, 0xFBB336, 0xFCB035, 0xFCAE34,
    0xFDAB33, 0xFDA932, 0xFDA631, 0xFDA330, 0xFEA12F, 0xFE9E2E, 0xFE9B2D, 0xFE982C,
    0xFD952B, 0xFD9229, 0xFD8F28, 0xFD8C27, 0xFC8926, 0xFC8624, 0xFB8323, 0xFB8022,
    0xFA7D20, 0xFA7A1F, 0xF9771E, 0xF8741C, 0xF7711B, 0xF76E1A, 0xF66B18, 0xF56817,
    0xF46516, 0xF36315, 0xF26014, 0xF15D13, 0xEF5A11, 0xEE5810, 0xED550F, 0xEC520E,
    0xEA500D, 0xE94D0D, 0xE84B0C, 0xE6490B, 0xE5460A, 0xE3440A, 0xE24209, 0xE04008,
    0xDE3E08, 0xDD3C07, 0xDB3A07, 0xD93806, 0xD73606, 0xD63405, 0xD43205, 0xD23005,
    0xD02F04, 0xCE2D04, 0xCB2B03, 0xC92903, 0xC72803, 0xC52602, 0xC32402, 0xC02302,
    0xBE2102, 0xBB1F01, 0xB91E01, 0xB61C01, 0xB41B01, 0xB11901, 0xAE1801, 0xAC1601,
    0xA91501, 0xA61401, 0xA31201, 0xA01101, 0x9D1001, 0x9A0E01, 0x970D01, 0x940C01,
    0x910B01, 0x8E0A01, 0x8B0901, 0x870801, 0x840701, 0x810602, 0x7D0502, 0x7A0402,
];

/// The Inferno map, each colour packed as `0xRRGGBB`.
pub const INFERNO: [u32; 256] = [
    0x000003, 0x000004, 0x000006, 0x010007, 0x010109, 0x01010B, 0x02010E, 0x020210,
    0x030212, 0x040314, 0x040316, 0x050418, 0x06041B, 0x07051D, 0x08061F, 0x090621,
    0x0A0723, 0x0B0726, 0x0D0828, 0x0E082A, 0x0F092D, 0x10092F, 0x120A32, 0x130A34,
    0x140B36, 0x160B39, 0x170B3B, 0x190B3E, 0x1A0B40, 0x1C0C43, 0x1D0C45, 0x1F0C47,
    0x200C4A, 0x220B4C, 0x240B4E, 0x260B50, 0x270B52, 0x290B54, 0x2B0A56, 0x2D0A58,
    0x2E0A5A, 0x300A5C, 0x32095D, 0x34095F, 0x350960, 0x370961, 0x390962, 0x3B0964,
    0x3C0965, 0x3E0966, 0x400966, 0x410967, 0x430A68, 0x450A69, 0x460A69, 0x480B6A,
    0x4A0B6A, 0x4B0C6B, 0x4D0C6B, 0x4F0D6C, 0x500D6C, 0x520E6C, 0x530E6D, 0x550F6D,
    0x570F6D, 0x58106D, 0x5A116D, 0x5B116E, 0x5D126E, 0x5F126E, 0x60136E, 0x62146E,
    0x63146E, 0x65156E, 0x66156E, 0x68166E, 0x6A176E, 0x6B176E, 0x6D186E, 0x6E186E,
    0x70196E, 0x72196D, 0x731A6D, 0x751B6D, 0x761B6D, 0x781C6D, 0x7A1C6D, 0x7B1D6C,
    0x7D1D6C, 0x7E1E6C, 0x801F6B, 0x811F6B, 0x83206B, 0x85206A, 0x86216A, 0x88216A,
    0x892269, 0x8B2269, 0x8D2369, 0x8E2468, 0x902468, 0x912567, 0x932567, 0x952666,
    0x962666, 0x982765, 0x992864, 0x9B2864, 0x9C2963, 0x9E2963, 0xA02A62, 0xA12B61,
    0xA32B61, 0xA42C60, 0xA62C5F, 0xA72D5F, 0xA92E5E, 0xAB2E5D, 0xAC2F5C, 0xAE305B,
    0xAF315B, 0xB1315A, 0xB23259, 0xB43358, 0xB53357, 0xB73456, 0xB83556, 0xBA3655,
    0xBB3754, 0xBD3753, 0xBE3852, 0xBF3951, 0xC13A50, 0xC23B4F, 0xC43C4E, 0xC53D4D,
    0xC73E4C, 0xC83E4B, 0xC93F4A, 0xCB4049, 0xCC4148, 0xCD4247, 0xCF4446, 0xD04544,
    0xD14643, 0xD24742, 0xD44841, 0xD54940, 0xD64A3F, 0xD74B3E, 0xD94D3D, 0xDA4E3B,
    0xDB4F3A, 0xDC5039, 0xDD5238, 0xDE5337, 0xDF5436, 0xE05634, 0xE25733, 0xE35832,
    0xE45A31, 0xE55B30, 0xE65C2E, 0xE65E2D, 0xE75F2C, 0xE8612B, 0xE9622A, 0xEA6428,
    0xEB6527, 0xEC6726, 0xED6825, 0xED6A23, 0xEE6C22, 0xEF6D21, 0xF06F1F, 0xF0701E,
    0xF1721D, 0xF2741C, 0xF2751A, 0xF37719, 0xF37918, 0xF47A16, 0xF57C15, 0xF57E14,
    0xF68012, 0xF68111, 0xF78310, 0xF7850E, 0xF8870D, 0xF8880C, 0xF88A0B, 0xF98C09,
    0xF98E08, 0xF99008, 0xFA9107, 0xFA9306, 0xFA9506, 0xFA9706, 0xFB9906, 0xFB9B06,
    0xFB9D06, 0xFB9E07, 0xFBA007, 0xFBA208, 0xFBA40A, 0xFBA60B, 0xFBA80D, 0xFBAA0E,
    0xFBAC10, 0xFBAE12, 0xFBB014, 0xFBB116, 0xFBB318, 0xFBB51A, 0xFBB71C, 0xFBB91E,
    0xFABB21, 0xFABD23, 0xFABF25, 0xFAC128, 0xF9C32A, 0xF9C52C, 0xF9C72F, 0xF8C931,
    0xF8CB34, 0xF8CD37, 0xF7CF3A, 0xF7D13C, 0xF6D33F, 0xF6D542, 0xF5D745, 0xF5D948,
    0xF4DB4B, 0xF4DC4F, 0xF3DE52, 0xF3E056, 0xF3E259, 0xF2E45D, 0xF2E660, 0xF1E864,
    0xF1E968, 0xF1EB6C, 0xF1ED70, 0xF1EE74, 0xF1F079, 0xF1F27D, 0xF2F381, 0xF2F485,
    0xF3F689, 0xF4F78D, 0xF5F891, 0xF6FA95, 0xF7FB99, 0xF9FC9D, 0xFAFDA0, 0xFCFEA4,
];

/// The Plasma map, each colour packed as `0xRRGGBB`.
pub const PLASMA: [u32; 256] = [
    0x0C0786, 0x100787, 0x130689, 0x15068A, 0x18068B, 0x1B068C, 0x1D068D, 0x1F058E,
    0x21058F, 0x230590, 0x250591, 0x270592, 0x290593, 0x2B0594, 0x2D0494, 0x2F0495,
    0x310496, 0x330497, 0x340498, 0x360498, 0x380499, 0x3A049A, 0x3B039A, 0x3D039B,
    0x3F039C, 0x40039C, 0x42039D, 0x44039E, 0x45039E, 0x47029F, 0x49029F, 0x4A02A0,
    0x4C02A1, 0x4E02A1, 0x4F02A2, 0x5101A2, 0x5201A3, 0x5401A3, 0x5601A3, 0x5701A4,
    0x5901A4, 0x5A00A5, 0x5C00A5, 0x5E00A5, 0x5F00A6, 0x6100A6, 0x6200A6, 0x6400A7,
    0x6500A7, 0x6700A7, 0x6800A7, 0x6A00A7, 0x6C00A8, 0x6D00A8, 0x6F00A8, 0x7000A8,
    0x7200A8, 0x7300A8, 0x7500A8, 0x7601A8, 0x7801A8, 0x7901A8, 0x7B02A8, 0x7C02A7,
    0x7E03A7, 0x7F03A7, 0x8104A7, 0x8204A7, 0x8405A6, 0x8506A6, 0x8607A6, 0x8807A5,
    0x8908A5, 0x8B09A4, 0x8C0AA4, 0x8E0CA4, 0x8F0DA3, 0x900EA3, 0x920FA2, 0x9310A1,
    0x9511A1, 0x9612A0, 0x9713A0, 0x99149F, 0x9A159E, 0x9B179E, 0x9D189D, 0x9E199C,
    0x9F1A9B, 0xA01B9B, 0xA21C9A, 0xA31D99, 0xA41E98, 0xA51F97, 0xA72197, 0xA82296,
    0xA92395, 0xAA2494, 0xAC2593, 0xAD2692, 0xAE2791, 0xAF2890, 0xB02A8F, 0xB12B8F,
    0xB22C8E, 0xB42D8D, 0xB52E8C, 0xB62F8B, 0xB7308A, 0xB83289, 0xB93388, 0xBA3487,
    0xBB3586, 0xBC3685, 0xBD3784, 0xBE3883, 0xBF3982, 0xC03B81, 0xC13C80, 0xC23D80,
    0xC33E7F, 0xC43F7E, 0xC5407D, 0xC6417C, 0xC7427B, 0xC8447A, 0xC94579, 0xCA4678,
    0xCB4777, 0xCC4876, 0xCD4975, 0xCE4A75, 0xCF4B74, 0xD04D73, 0xD14E72, 0xD14F71,
    0xD25070, 0xD3516F, 0xD4526E, 0xD5536D, 0xD6556D, 0xD7566C, 0xD7576B, 0xD8586A,
    0xD95969, 0xDA5A68, 0xDB5B67, 0xDC5D66, 0xDC5E66, 0xDD5F65, 0xDE6064, 0xDF6163,
    0xDF6262, 0xE06461, 0xE16560, 0xE26660, 0xE3675F, 0xE3685E, 0xE46A5D, 0xE56B5C,
    0xE56C5B, 0xE66D5A, 0xE76E5A, 0xE87059, 0xE87158, 0xE97257, 0xEA7356, 0xEA7455,
    0xEB7654, 0xEC7754, 0xEC7853, 0xED7952, 0xED7B51, 0xEE7C50, 0xEF7D4F, 0xEF7E4E,
    0xF0804D, 0xF0814D, 0xF1824C, 0xF2844B, 0xF2854A, 0xF38649, 0xF38748, 0xF48947,
    0xF48A47, 0xF58B46, 0xF58D45, 0xF68E44, 0xF68F43, 0xF69142, 0xF79241, 0xF79341,
    0xF89540, 0xF8963F, 0xF8983E, 0xF9993D, 0xF99A3C, 0xFA9C3B, 0xFA9D3A, 0xFA9F3A,
    0xFAA039, 0xFBA238, 0xFBA337, 0xFBA436, 0xFCA635, 0xFCA735, 0xFCA934, 0xFCAA33,
    0xFCAC32, 0xFCAD31, 0xFDAF31, 0xFDB030, 0xFDB22F, 0xFDB32E, 0xFDB52D, 0xFDB62D,
    0xFDB82C, 0xFDB92B, 0xFDBB2B, 0xFDBC2A, 0xFDBE29, 0xFDC029, 0xFDC128, 0xFDC328,
    0xFDC427, 0xFDC626, 0xFCC726, 0xFCC926, 0xFCCB25, 0xFCCC25, 0xFCCE25, 0xFBD024,
    0xFBD124, 0xFBD324, 0xFAD524, 0xFAD624, 0xFAD824, 0xF9D924, 0xF9DB24, 0xF8DD24,
    0xF8DF24, 0xF7E024, 0xF7E225, 0xF6E425, 0xF6E525, 0xF5E726, 0xF5E926, 0xF4EA26,
    0xF3EC26, 0xF3EE26, 0xF2F026, 0xF2F126, 0xF1F326, 0xF0F525, 0xF0F623, 0xEFF821,
];

/// The Magma map, each colour packed as `0xRRGGBB`.
pub const MAGMA: [u32; 256] = [
    0x000003, 0x000004, 0x000006, 0x010007, 0x010109, 0x01010B, 0x02020D, 0x02020F,
    0x030311, 0x040313, 0x040415, 0x050417, 0x060519, 0x07051B, 0x08061D, 0x09071F,
    0x0A0722, 0x0B0824, 0x0C0926, 0x0D0A28, 0x0E0A2A, 0x0F0B2C, 0x100C2F, 0x110C31,
    0x120D33, 0x140D35, 0x150E38, 0x160E3A, 0x170F3C, 0x180F3F, 0x1A1041, 0x1B1044,
    0x1C1046, 0x1E1049, 0x1F114B, 0x20114D, 0x221150, 0x231152, 0x251155, 0x261157,
    0x281159, 0x2A115C, 0x2B115E, 0x2D1060, 0x2F1062, 0x301065, 0x321067, 0x341068,
    0x350F6A, 0x370F6C, 0x390F6E, 0x3B0F6F, 0x3C0F71, 0x3E0F72, 0x400F73, 0x420F74,
    0x430F75, 0x450F76, 0x470F77, 0x481078, 0x4A1079, 0x4B1079, 0x4D117A, 0x4F117B,
    0x50127B, 0x52127C, 0x53137C, 0x55137D, 0x57147D, 0x58157E, 0x5A157E, 0x5B167E,
    0x5D177E, 0x5E177F, 0x60187F, 0x61187F, 0x63197F, 0x651A80, 0x661A80, 0x681B80,
    0x691C80, 0x6B1C80, 0x6C1D80, 0x6E1E81, 0x6F1E81, 0x711F81, 0x731F81, 0x742081,
    0x762181, 0x772181, 0x792281, 0x7A2281, 0x7C2381, 0x7E2481, 0x7F2481, 0x812581,
    0x822581, 0x842681, 0x852681, 0x872781, 0x892881, 0x8A2881, 0x8C2980, 0x8D2980,
    0x8F2A80, 0x912A80, 0x922B80, 0x942B80, 0x952C80, 0x972C7F, 0x992D7F, 0x9A2D7F,
    0x9C2E7F, 0x9E2E7E, 0x9F2F7E, 0xA12F7E, 0xA3307E, 0xA4307D, 0xA6317D, 0xA7317D,
    0xA9327C, 0xAB337C, 0xAC337B, 0xAE347B, 0xB0347B, 0xB1357A, 0xB3357A, 0xB53679,
    0xB63679, 0xB83778, 0xB93778, 0xBB3877, 0xBD3977, 0xBE3976, 0xC03A75, 0xC23A75,
    0xC33B74, 0xC53C74, 0xC63C73, 0xC83D72, 0xCA3E72, 0xCB3E71, 0xCD3F70, 0xCE4070,
    0xD0416F, 0xD1426E, 0xD3426D, 0xD4436D, 0xD6446C, 0xD7456B, 0xD9466A, 0xDA4769,
    0xDC4869, 0xDD4968, 0xDE4A67, 0xE04B66, 0xE14C66, 0xE24D65, 0xE44E64, 0xE55063,
    0xE65162, 0xE75262, 0xE85461, 0xEA5560, 0xEB5660, 0xEC585F, 0xED595F, 0xEE5B5E,
    0xEE5D5D, 0xEF5E5D, 0xF0605D, 0xF1615C, 0xF2635C, 0xF3655C, 0xF3675B, 0xF4685B,
    0xF56A5B, 0xF56C5B, 0xF66E5B, 0xF6705B, 0xF7715B, 0xF7735C, 0xF8755C, 0xF8775C,
    0xF9795C, 0xF97B5D, 0xF97D5D, 0xFA7F5E, 0xFA805E, 0xFA825F, 0xFB8460, 0xFB8660,
    0xFB8861, 0xFB8A62, 0xFC8C63, 0xFC8E63, 0xFC9064, 0xFC9265, 0xFC9366, 0xFD9567,
    0xFD9768, 0xFD9969, 0xFD9B6A, 0xFD9D6B, 0xFD9F6C, 0xFDA16E, 0xFDA26F, 0xFDA470,
    0xFEA671, 0xFEA873, 0xFEAA74, 0xFEAC75, 0xFEAE76, 0xFEAF78, 0xFEB179, 0xFEB37B,
    0xFEB57C, 0xFEB77D, 0xFEB97F, 0xFEBB80, 0xFEBC82, 0xFEBE83, 0xFEC085, 0xFEC286,
    0xFEC488, 0xFEC689, 0xFEC78B, 0xFEC98D, 0xFECB8E, 0xFDCD90, 0xFDCF92, 0xFDD193,
    0xFDD295, 0xFDD497, 0xFDD698, 0xFDD89A, 0xFDDA9C, 0xFDDC9D, 0xFDDD9F, 0xFDDFA1,
    0xFDE1A3, 0xFCE3A5, 0xFCE5A6, 0xFCE6A8, 0xFCE8AA, 0xFCEAAC, 0xFCECAE, 0xFCEEB0,
    0xFCF0B1, 0xFCF1B3, 0xFCF3B5, 0xFCF5B7, 0xFBF7B9, 0xFBF9BB, 0xFBFABD, 0xFBFCBF,
];

/// The Viridis map, each colour packed as `0xRRGGBB`.
pub const VIRIDIS: [u32; 256] = [
    0x440154, 0x440255, 0x440357, 0x450558, 0x45065A, 0x45085B, 0x46095C, 0x460B5E,
    0x460C5F, 0x460E61, 0x470F62, 0x471163, 0x471265, 0x471466, 0x471567, 0x471669,
    0x47186A, 0x48196B, 0x481A6C, 0x481C6E, 0x481D6F, 0x481E70, 0x482071, 0x482172,
    0x482273, 0x482374, 0x472575, 0x472676, 0x472777, 0x472878, 0x472A79, 0x472B7A,
    0x472C7B, 0x462D7C, 0x462F7C, 0x46307D, 0x46317E, 0x45327F, 0x45347F, 0x453580,
    0x453681, 0x443781, 0x443982, 0x433A83, 0x433B83, 0x433C84, 0x423D84, 0x423E85,
    0x424085, 0x414186, 0x414286, 0x404387, 0x404487, 0x3F4587, 0x3F4788, 0x3E4888,
    0x3E4989, 0x3D4A89, 0x3D4B89, 0x3D4C89, 0x3C4D8A, 0x3C4E8A, 0x3B508A, 0x3B518A,
    0x3A528B, 0x3A538B, 0x39548B, 0x39558B, 0x38568B, 0x38578C, 0x37588C, 0x37598C,
    0x365A8C, 0x365B8C, 0x355C8C, 0x355D8C, 0x345E8D, 0x345F8D, 0x33608D, 0x33618D,
    0x32628D, 0x32638D, 0x31648D, 0x31658D, 0x31668D, 0x30678D, 0x30688D, 0x2F698D,
    0x2F6A8D, 0x2E6B8E, 0x2E6C8E, 0x2E6D8E, 0x2D6E8E, 0x2D6F8E, 0x2C708E, 0x2C718E,
    0x2C728E, 0x2B738E, 0x2B748E, 0x2A758E, 0x2A768E, 0x2A778E, 0x29788E, 0x29798E,
    0x287A8E, 0x287A8E, 0x287B8E, 0x277C8E, 0x277D8E, 0x277E8E, 0x267F8E, 0x26808E,
    0x26818E, 0x25828E, 0x25838D, 0x24848D, 0x24858D, 0x24868D, 0x23878D, 0x23888D,
    0x23898D, 0x22898D, 0x228A8D, 0x228B8D, 0x218C8D, 0x218D8C, 0x218E8C, 0x208F8C,
    0x20908C, 0x20918C, 0x1F928C, 0x1F938B, 0x1F948B, 0x1F958B, 0x1F968B, 0x1E978A,
    0x1E988A, 0x1E998A, 0x1E998A, 0x1E9A89, 0x1E9B89, 0x1E9C89, 0x1E9D88, 0x1E9E88,
    0x1E9F88, 0x1EA087, 0x1FA187, 0x1FA286, 0x1FA386, 0x20A485, 0x20A585, 0x21A685,
    0x21A784, 0x22A784, 0x23A883, 0x23A982, 0x24AA82, 0x25AB81, 0x26AC81, 0x27AD80,
    0x28AE7F, 0x29AF7F, 0x2AB07E, 0x2BB17D, 0x2CB17D, 0x2EB27C, 0x2FB37B, 0x30B47A,
    0x32B57A, 0x33B679, 0x35B778, 0x36B877, 0x38B976, 0x39B976, 0x3BBA75, 0x3DBB74,
    0x3EBC73, 0x40BD72, 0x42BE71, 0x44BE70, 0x45BF6F, 0x47C06E, 0x49C16D, 0x4BC26C,
    0x4DC26B, 0x4FC369, 0x51C468, 0x53C567, 0x55C666, 0x57C665, 0x59C764, 0x5BC862,
    0x5EC961, 0x60C960, 0x62CA5F, 0x64CB5D, 0x67CC5C, 0x69CC5B, 0x6BCD59, 0x6DCE58,
    0x70CE56, 0x72CF55, 0x74D054, 0x77D052, 0x79D151, 0x7CD24F, 0x7ED24E, 0x81D34C,
    0x83D34B, 0x86D449, 0x88D547, 0x8BD546, 0x8DD644, 0x90D643, 0x92D741, 0x95D73F,
    0x97D83E, 0x9AD83C, 0x9DD93A, 0x9FD938, 0xA2DA37, 0xA5DA35, 0xA7DB33, 0xAADB32,
    0xADDC30, 0xAFDC2E, 0xB2DD2C, 0xB5DD2B, 0xB7DD29, 0xBADE27, 0xBDDE26, 0xBFDF24,
    0xC2DF22, 0xC5DF21, 0xC7E01F, 0xCAE01E, 0xCDE01D, 0xCFE11C, 0xD2E11B, 0xD4E11A,
    0xD7E219, 0xDAE218, 0xDCE218, 0xDFE318, 0xE1E318, 0xE4E318, 0xE7E419, 0xE9E419,
    0xECE41A, 0xEEE51B, 0xF1E51C, 0xF3E51E, 0xF6E61F, 0xF8E621, 0xFAE622, 0xFDE724,
];

/// Black to white, each colour packed as `0xRRGGBB`.
pub const BW: [u32; 256] = [
    0x000000, 0x000000, 0x000000, 0x000000, 0x000000, 0x000000, 0x000000, 0x000000,
    0x000000, 0x000000, 0x000000, 0x000000, 0x000000, 0x000000, 0x000000, 0x000000,
    0x000000, 0x000000, 0x000000, 0x000000, 0x000000, 0x000000, 0x000000, 0x000000,
    0x000000, 0x000000, 0x000000, 0x000000, 0x000000, 0x000000, 0x000000, 0x000000,
    0x000000, 0x000000, 0x000000, 0x000000, 0x000000, 0x000000, 0x000000, 0x000000,
    0x000000, 0x000000, 0x000000, 0x000000, 0x000000, 0x000000, 0x000000, 0x000000,
    0x000000, 0x000000, 0x000000, 0x000000, 0x000000, 0x000000, 0x000000, 0x000000,
    0x000000, 0x000000, 0x000000, 0x000000, 0x000000, 0x000000, 0x000000, 0x000000,
    0x000000, 0x000000, 0x000000, 0x000000, 0x000000, 0x000000, 0x000000, 0x000000,
    0x000000, 0x000000, 0x000000, 0x000000, 0x000000, 0x000000, 0x000000, 0x000000,
    0x000000, 0x000000, 0x000000, 0x000000, 0x000000, 0x000000, 0x000000, 0x000000,
    0x000000, 0x000000, 0x000000, 0x000000, 0x000000, 0x000000, 0x000000, 0x000000,
    0x000000, 0x000000, 0x000000, 0x000000, 0x000000, 0x000000, 0x000000, 0x000000,
    0x000000, 0x000000, 0x000000, 0x000000, 0x000000, 0x000000, 0x000000, 0x000000,
    0x000000, 0x000000, 0x000000, 0x000000, 0x000000, 0x000000, 0x000000, 0x000000,
    0x000000, 0x000000, 0x000000, 0x000000, 0x000000, 0x000000, 0x000000, 0x000000,
    0x000000, 0x060606, 0x0C0C0C, 0x131313, 0x191919, 0x1F1F1F, 0x262626, 0x2C2C2C,
    0x333333, 0x393939, 0x3F3F3F, 0x464646, 0x4C4C4C, 0x525252, 0x595959, 0x5F5F5F,
    0x666666, 0x6C6C6C, 0x727272, 0x797979, 0x7F7F7F, 0x858585, 0x8C8C8C, 0x929292,
    0x999999, 0x9F9F9F, 0xA5A5A5, 0xACACAC, 0xB2B2B2, 0xB8B8B8, 0xBFBFBF, 0xC5C5C5,
    0xCCCCCC, 0xD2D2D2, 0xD8D8D8, 0xDFDFDF, 0xE5E5E5, 0xEBEBEB, 0xF2F2F2, 0xF8F8F8,
    0xFFFFFF, 0xFFFFFF, 0xFFFFFF, 0xFFFFFF, 0xFFFFFF, 0xFFFFFF, 0xFFFFFF, 0xFFFFFF,
    0xFFFFFF, 0xFFFFFF, 0xFFFFFF, 0xFFFFFF, 0xFFFFFF, 0xFFFFFF, 0xFFFFFF, 0xFFFFFF,
    0xFFFFFF, 0xFFFFFF, 0xFFFFFF, 0xFFFFFF, 0xFFFFFF, 0xFFFFFF, 0xFFFFFF, 0xFFFFFF,
    0xFFFFFF, 0xFFFFFF, 0xFFFFFF, 0xFFFFFF, 0xFFFFFF, 0xFFFFFF, 0xFFFFFF, 0xFFFFFF,
    0xFFFFFF, 0xFFFFFF, 0xFFFFFF, 0xFFFFFF, 0xFFFFFF, 0xFFFFFF, 0xFFFFFF, 0xFFFFFF,
    0xFFFFFF, 0xFFFFFF, 0xFFFFFF, 0xFFFFFF, 0xFFFFFF, 0xFFFFFF, 0xFFFFFF, 0xFFFFFF,
    0xFFFFFF, 0xFFFFFF, 0xFFFFFF, 0xFFFFFF, 0xFFFFFF, 0xFFFFFF, 0xFFFFFF, 0xFFFFFF,
    0xFFFFFF, 0xFFFFFF, 0xFFFFFF, 0xFFFFFF, 0xFFFFFF, 0xFFFFFF, 0xFFFFFF, 0xFFFFFF,
    0xFFFFFF, 0xFFFFFF, 0xFFFFFF, 0xFFFFFF, 0xFFFFFF, 0xFFFFFF, 0xFFFFFF, 0xFFFFFF,
    0xFFFFFF, 0xFFFFFF, 0xFFFFFF, 0xFFFFFF, 0xFFFFFF, 0xFFFFFF, 0xFFFFFF, 0xFFFFFF,
    0xFFFFFF, 0xFFFFFF, 0xFFFFFF, 0xFFFFFF, 0xFFFFFF, 0xFFFFFF, 0xFFFFFF, 0xFFFFFF,
];

} // verus!
