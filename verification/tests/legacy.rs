use std::collections::HashMap;

use e164_phones_countries::find_iso_3166;
use e164_phones_countries::find_phone_cc;
use e164_phones_countries::TerritoryCode;

#[test]
fn find_iso_3166_test() {
    assert_eq!("US", find_iso_3166("12069359290"));
    assert_eq!("", find_iso_3166("12229359290"));
    assert_eq!("UZ", find_iso_3166("99893592902"));
    assert_eq!("YT", find_iso_3166("26226992902"));
}

#[test]
fn find_phone_cc_test() {
    assert_eq!("1", find_phone_cc("US"));
    assert_eq!("", find_phone_cc("ZZ"));
}

#[test]
fn get_country_code_equals_old_impl() {
    let mut phone_prefix = HashMap::<u32, _>::new();
    phone_prefix.insert(1201, "US");
    phone_prefix.insert(1202, "US");
    phone_prefix.insert(1203, "US");
    phone_prefix.insert(1204, "CA");
    phone_prefix.insert(1205, "US");
    phone_prefix.insert(1206, "US");
    phone_prefix.insert(1207, "US");
    phone_prefix.insert(1208, "US");
    phone_prefix.insert(1209, "US");
    phone_prefix.insert(1210, "US");
    phone_prefix.insert(1212, "US");
    phone_prefix.insert(1213, "US");
    phone_prefix.insert(1214, "US");
    phone_prefix.insert(1215, "US");
    phone_prefix.insert(1216, "US");
    phone_prefix.insert(1217, "US");
    phone_prefix.insert(1218, "US");
    phone_prefix.insert(1219, "US");
    phone_prefix.insert(1224, "US");
    phone_prefix.insert(1225, "US");
    phone_prefix.insert(1226, "CA");
    phone_prefix.insert(1228, "US");
    phone_prefix.insert(1229, "US");
    phone_prefix.insert(1231, "US");
    phone_prefix.insert(1234, "US");
    phone_prefix.insert(1236, "CA");
    phone_prefix.insert(1239, "US");
    phone_prefix.insert(1240, "US");
    phone_prefix.insert(1242, "BS");
    phone_prefix.insert(1246, "BB");
    phone_prefix.insert(1248, "US");
    phone_prefix.insert(1249, "CA");
    phone_prefix.insert(1250, "CA");
    phone_prefix.insert(1251, "US");
    phone_prefix.insert(1252, "US");
    phone_prefix.insert(1253, "US");
    phone_prefix.insert(1254, "US");
    phone_prefix.insert(1256, "US");
    phone_prefix.insert(1260, "US");
    phone_prefix.insert(1262, "US");
    phone_prefix.insert(1264, "AI");
    phone_prefix.insert(1267, "US");
    phone_prefix.insert(1268, "AG");
    phone_prefix.insert(1269, "US");
    phone_prefix.insert(1270, "US");
    phone_prefix.insert(1272, "US");
    phone_prefix.insert(1274, "US");
    phone_prefix.insert(1276, "US");
    phone_prefix.insert(1281, "US");
    phone_prefix.insert(1284, "VG");
    phone_prefix.insert(1289, "CA");
    phone_prefix.insert(1301, "US");
    phone_prefix.insert(1302, "US");
    phone_prefix.insert(1303, "US");
    phone_prefix.insert(1304, "US");
    phone_prefix.insert(1305, "US");
    phone_prefix.insert(1306, "CA");
    phone_prefix.insert(1307, "US");
    phone_prefix.insert(1308, "US");
    phone_prefix.insert(1309, "US");
    phone_prefix.insert(1310, "US");
    phone_prefix.insert(1312, "US");
    phone_prefix.insert(1313, "US");
    phone_prefix.insert(1314, "US");
    phone_prefix.insert(1315, "US");
    phone_prefix.insert(1316, "US");
    phone_prefix.insert(1317, "US");
    phone_prefix.insert(1318, "US");
    phone_prefix.insert(1319, "US");
    phone_prefix.insert(1320, "US");
    phone_prefix.insert(1321, "US");
    phone_prefix.insert(1323, "US");
    phone_prefix.insert(1325, "US");
    phone_prefix.insert(1330, "US");
    phone_prefix.insert(1331, "US");
    phone_prefix.insert(1334, "US");
    phone_prefix.insert(1336, "US");
    phone_prefix.insert(1337, "US");
    phone_prefix.insert(1339, "US");
    phone_prefix.insert(1340, "VI");
    phone_prefix.insert(1343, "CA");
    phone_prefix.insert(1345, "KY");
    phone_prefix.insert(1346, "US");
    phone_prefix.insert(1347, "US");
    phone_prefix.insert(1351, "US");
    phone_prefix.insert(1352, "US");
    phone_prefix.insert(1360, "US");
    phone_prefix.insert(1361, "US");
    phone_prefix.insert(1364, "US");
    phone_prefix.insert(1365, "CA");
    phone_prefix.insert(1385, "US");
    phone_prefix.insert(1386, "US");
    phone_prefix.insert(1401, "US");
    phone_prefix.insert(1402, "US");
    phone_prefix.insert(1403, "CA");
    phone_prefix.insert(1404, "US");
    phone_prefix.insert(1405, "US");
    phone_prefix.insert(1406, "US");
    phone_prefix.insert(1407, "US");
    phone_prefix.insert(1408, "US");
    phone_prefix.insert(1409, "US");
    phone_prefix.insert(1410, "US");
    phone_prefix.insert(1412, "US");
    phone_prefix.insert(1413, "US");
    phone_prefix.insert(1414, "US");
    phone_prefix.insert(1415, "US");
    phone_prefix.insert(1416, "CA");
    phone_prefix.insert(1417, "US");
    phone_prefix.insert(1418, "CA");
    phone_prefix.insert(1419, "US");
    phone_prefix.insert(1423, "US");
    phone_prefix.insert(1424, "US");
    phone_prefix.insert(1425, "US");
    phone_prefix.insert(1430, "US");
    phone_prefix.insert(1431, "CA");
    phone_prefix.insert(1432, "US");
    phone_prefix.insert(1434, "US");
    phone_prefix.insert(1435, "US");
    phone_prefix.insert(1437, "CA");
    phone_prefix.insert(1438, "CA");
    phone_prefix.insert(1440, "US");
    phone_prefix.insert(1441, "BM");
    phone_prefix.insert(1442, "US");
    phone_prefix.insert(1443, "US");
    phone_prefix.insert(1450, "CA");
    phone_prefix.insert(1457, "CA");
    phone_prefix.insert(1458, "US");
    phone_prefix.insert(1469, "US");
    phone_prefix.insert(1470, "US");
    phone_prefix.insert(1473, "GD");
    phone_prefix.insert(1475, "US");
    phone_prefix.insert(1478, "US");
    phone_prefix.insert(1479, "US");
    phone_prefix.insert(1480, "US");
    phone_prefix.insert(1484, "US");
    phone_prefix.insert(1500, "US");
    phone_prefix.insert(1501, "US");
    phone_prefix.insert(1502, "US");
    phone_prefix.insert(1503, "US");
    phone_prefix.insert(1504, "US");
    phone_prefix.insert(1505, "US");
    phone_prefix.insert(1506, "CA");
    phone_prefix.insert(1507, "US");
    phone_prefix.insert(1508, "US");
    phone_prefix.insert(1509, "US");
    phone_prefix.insert(1510, "US");
    phone_prefix.insert(1512, "US");
    phone_prefix.insert(1513, "US");
    phone_prefix.insert(1514, "CA");
    phone_prefix.insert(1515, "US");
    phone_prefix.insert(1516, "US");
    phone_prefix.insert(1517, "US");
    phone_prefix.insert(1518, "US");
    phone_prefix.insert(1519, "CA");
    phone_prefix.insert(1520, "US");
    phone_prefix.insert(1530, "US");
    phone_prefix.insert(1531, "US");
    phone_prefix.insert(1533, "US");
    phone_prefix.insert(1534, "US");
    phone_prefix.insert(1539, "US");
    phone_prefix.insert(1540, "US");
    phone_prefix.insert(1541, "US");
    phone_prefix.insert(1544, "US");
    phone_prefix.insert(1551, "US");
    phone_prefix.insert(1559, "US");
    phone_prefix.insert(1561, "US");
    phone_prefix.insert(1562, "US");
    phone_prefix.insert(1563, "US");
    phone_prefix.insert(1566, "US");
    phone_prefix.insert(1567, "US");
    phone_prefix.insert(1570, "US");
    phone_prefix.insert(1571, "US");
    phone_prefix.insert(1573, "US");
    phone_prefix.insert(1574, "US");
    phone_prefix.insert(1575, "US");
    phone_prefix.insert(1577, "US");
    phone_prefix.insert(1579, "CA");
    phone_prefix.insert(1580, "US");
    phone_prefix.insert(1581, "CA");
    phone_prefix.insert(1585, "US");
    phone_prefix.insert(1586, "US");
    phone_prefix.insert(1587, "CA");
    phone_prefix.insert(1600, "CA");
    phone_prefix.insert(1601, "US");
    phone_prefix.insert(1602, "US");
    phone_prefix.insert(1603, "US");
    phone_prefix.insert(1604, "CA");
    phone_prefix.insert(1605, "US");
    phone_prefix.insert(1606, "US");
    phone_prefix.insert(1607, "US");
    phone_prefix.insert(1608, "US");
    phone_prefix.insert(1609, "US");
    phone_prefix.insert(1610, "US");
    phone_prefix.insert(1612, "US");
    phone_prefix.insert(1613, "CA");
    phone_prefix.insert(1614, "US");
    phone_prefix.insert(1615, "US");
    phone_prefix.insert(1616, "US");
    phone_prefix.insert(1617, "US");
    phone_prefix.insert(1618, "US");
    phone_prefix.insert(1619, "US");
    phone_prefix.insert(1620, "US");
    phone_prefix.insert(1623, "US");
    phone_prefix.insert(1626, "US");
    phone_prefix.insert(1628, "US");
    phone_prefix.insert(1629, "US");
    phone_prefix.insert(1630, "US");
    phone_prefix.insert(1631, "US");
    phone_prefix.insert(1636, "US");
    phone_prefix.insert(1639, "CA");
    phone_prefix.insert(1641, "US");
    phone_prefix.insert(1646, "US");
    phone_prefix.insert(1647, "CA");
    phone_prefix.insert(1649, "TC");
    phone_prefix.insert(1650, "US");
    phone_prefix.insert(1651, "US");
    phone_prefix.insert(1657, "US");
    phone_prefix.insert(1660, "US");
    phone_prefix.insert(1661, "US");
    phone_prefix.insert(1662, "US");
    phone_prefix.insert(1664, "MS");
    phone_prefix.insert(1667, "US");
    phone_prefix.insert(1669, "US");
    phone_prefix.insert(1670, "MP");
    phone_prefix.insert(1671, "GU");
    phone_prefix.insert(1678, "US");
    phone_prefix.insert(1681, "US");
    phone_prefix.insert(1682, "US");
    phone_prefix.insert(1684, "AS");
    phone_prefix.insert(1700, "US");
    phone_prefix.insert(1701, "US");
    phone_prefix.insert(1702, "US");
    phone_prefix.insert(1703, "US");
    phone_prefix.insert(1704, "US");
    phone_prefix.insert(1705, "CA");
    phone_prefix.insert(1706, "US");
    phone_prefix.insert(1707, "US");
    phone_prefix.insert(1708, "US");
    phone_prefix.insert(1709, "CA");
    phone_prefix.insert(1710, "US");
    phone_prefix.insert(1712, "US");
    phone_prefix.insert(1713, "US");
    phone_prefix.insert(1714, "US");
    phone_prefix.insert(1715, "US");
    phone_prefix.insert(1716, "US");
    phone_prefix.insert(1717, "US");
    phone_prefix.insert(1718, "US");
    phone_prefix.insert(1719, "US");
    phone_prefix.insert(1720, "US");
    phone_prefix.insert(1721, "SX");
    phone_prefix.insert(1724, "US");
    phone_prefix.insert(1725, "US");
    phone_prefix.insert(1727, "US");
    phone_prefix.insert(1731, "US");
    phone_prefix.insert(1732, "US");
    phone_prefix.insert(1734, "US");
    phone_prefix.insert(1737, "US");
    phone_prefix.insert(1740, "US");
    phone_prefix.insert(1747, "US");
    phone_prefix.insert(1754, "US");
    phone_prefix.insert(1757, "US");
    phone_prefix.insert(1758, "LC");
    phone_prefix.insert(1760, "US");
    phone_prefix.insert(1762, "US");
    phone_prefix.insert(1763, "US");
    phone_prefix.insert(1765, "US");
    phone_prefix.insert(1767, "DM");
    phone_prefix.insert(1769, "US");
    phone_prefix.insert(1770, "US");
    phone_prefix.insert(1772, "US");
    phone_prefix.insert(1773, "US");
    phone_prefix.insert(1774, "US");
    phone_prefix.insert(1775, "US");
    phone_prefix.insert(1778, "CA");
    phone_prefix.insert(1779, "US");
    phone_prefix.insert(1780, "CA");
    phone_prefix.insert(1781, "US");
    phone_prefix.insert(1782, "CA");
    phone_prefix.insert(1784, "VC");
    phone_prefix.insert(1785, "US");
    phone_prefix.insert(1786, "US");
    phone_prefix.insert(1787, "PR");
    phone_prefix.insert(1800, "US");
    phone_prefix.insert(1801, "US");
    phone_prefix.insert(1802, "US");
    phone_prefix.insert(1803, "US");
    phone_prefix.insert(1804, "US");
    phone_prefix.insert(1805, "US");
    phone_prefix.insert(1806, "US");
    phone_prefix.insert(1807, "CA");
    phone_prefix.insert(1808, "US");
    phone_prefix.insert(1809, "DO");
    phone_prefix.insert(1810, "US");
    phone_prefix.insert(1812, "US");
    phone_prefix.insert(1813, "US");
    phone_prefix.insert(1814, "US");
    phone_prefix.insert(1815, "US");
    phone_prefix.insert(1816, "US");
    phone_prefix.insert(1817, "US");
    phone_prefix.insert(1818, "US");
    phone_prefix.insert(1819, "CA");
    phone_prefix.insert(1825, "CA");
    phone_prefix.insert(1828, "US");
    phone_prefix.insert(1829, "DO");
    phone_prefix.insert(1830, "US");
    phone_prefix.insert(1831, "US");
    phone_prefix.insert(1832, "US");
    phone_prefix.insert(1843, "US");
    phone_prefix.insert(1844, "US");
    phone_prefix.insert(1845, "US");
    phone_prefix.insert(1847, "US");
    phone_prefix.insert(1848, "US");
    phone_prefix.insert(1849, "DO");
    phone_prefix.insert(1850, "US");
    phone_prefix.insert(1855, "US");
    phone_prefix.insert(1856, "US");
    phone_prefix.insert(1857, "US");
    phone_prefix.insert(1858, "US");
    phone_prefix.insert(1859, "US");
    phone_prefix.insert(1860, "US");
    phone_prefix.insert(1862, "US");
    phone_prefix.insert(1863, "US");
    phone_prefix.insert(1864, "US");
    phone_prefix.insert(1865, "US");
    phone_prefix.insert(1866, "US");
    phone_prefix.insert(1867, "CA");
    phone_prefix.insert(1868, "TT");
    phone_prefix.insert(1869, "KN");
    phone_prefix.insert(1870, "US");
    phone_prefix.insert(1872, "US");
    phone_prefix.insert(1873, "CA");
    phone_prefix.insert(1876, "JM");
    phone_prefix.insert(1877, "US");
    phone_prefix.insert(1878, "US");
    phone_prefix.insert(1888, "US");
    phone_prefix.insert(1900, "US");
    phone_prefix.insert(1901, "US");
    phone_prefix.insert(1902, "CA");
    phone_prefix.insert(1903, "US");
    phone_prefix.insert(1904, "US");
    phone_prefix.insert(1905, "CA");
    phone_prefix.insert(1906, "US");
    phone_prefix.insert(1907, "US");
    phone_prefix.insert(1908, "US");
    phone_prefix.insert(1909, "US");
    phone_prefix.insert(1910, "US");
    phone_prefix.insert(1912, "US");
    phone_prefix.insert(1913, "US");
    phone_prefix.insert(1914, "US");
    phone_prefix.insert(1915, "US");
    phone_prefix.insert(1916, "US");
    phone_prefix.insert(1917, "US");
    phone_prefix.insert(1918, "US");
    phone_prefix.insert(1919, "US");
    phone_prefix.insert(1920, "US");
    phone_prefix.insert(1925, "US");
    phone_prefix.insert(1928, "US");
    phone_prefix.insert(1929, "US");
    phone_prefix.insert(1930, "US");
    phone_prefix.insert(1931, "US");
    phone_prefix.insert(1935, "US");
    phone_prefix.insert(1936, "US");
    phone_prefix.insert(1937, "US");
    phone_prefix.insert(1938, "US");
    phone_prefix.insert(1939, "PR");
    phone_prefix.insert(1940, "US");
    phone_prefix.insert(1941, "US");
    phone_prefix.insert(1947, "US");
    phone_prefix.insert(1949, "US");
    phone_prefix.insert(1951, "US");
    phone_prefix.insert(1952, "US");
    phone_prefix.insert(1954, "US");
    phone_prefix.insert(1956, "US");
    phone_prefix.insert(1959, "US");
    phone_prefix.insert(1970, "US");
    phone_prefix.insert(1971, "US");
    phone_prefix.insert(1972, "US");
    phone_prefix.insert(1973, "US");
    phone_prefix.insert(1978, "US");
    phone_prefix.insert(1979, "US");
    phone_prefix.insert(1980, "US");
    phone_prefix.insert(1984, "US");
    phone_prefix.insert(1985, "US");
    phone_prefix.insert(1989, "US");
    phone_prefix.insert(20, "EG");
    phone_prefix.insert(211, "SS");
    phone_prefix.insert(212, "MA");
    phone_prefix.insert(213, "DZ");
    phone_prefix.insert(216, "TN");
    phone_prefix.insert(218, "LY");
    phone_prefix.insert(220, "GM");
    phone_prefix.insert(221, "SN");
    phone_prefix.insert(222, "MR");
    phone_prefix.insert(223, "ML");
    phone_prefix.insert(224, "GN");
    phone_prefix.insert(225, "CI");
    phone_prefix.insert(226, "BF");
    phone_prefix.insert(227, "NE");
    phone_prefix.insert(228, "TG");
    phone_prefix.insert(229, "BJ");
    phone_prefix.insert(230, "MU");
    phone_prefix.insert(231, "LR");
    phone_prefix.insert(232, "SL");
    phone_prefix.insert(233, "GH");
    phone_prefix.insert(234, "NG");
    phone_prefix.insert(235, "TD");
    phone_prefix.insert(236, "CF");
    phone_prefix.insert(237, "CM");
    phone_prefix.insert(238, "CV");
    phone_prefix.insert(239, "ST");
    phone_prefix.insert(240, "GQ");
    phone_prefix.insert(241, "GA");
    phone_prefix.insert(242, "CG");
    phone_prefix.insert(243, "CD");
    phone_prefix.insert(244, "AO");
    phone_prefix.insert(245, "GW");
    phone_prefix.insert(246, "IO");
    phone_prefix.insert(247, "AC");
    phone_prefix.insert(248, "SC");
    phone_prefix.insert(249, "SD");
    phone_prefix.insert(250, "RW");
    phone_prefix.insert(251, "ET");
    phone_prefix.insert(252, "SO");
    phone_prefix.insert(253, "DJ");
    phone_prefix.insert(254, "KE");
    phone_prefix.insert(255, "TZ");
    phone_prefix.insert(256, "UG");
    phone_prefix.insert(257, "BI");
    phone_prefix.insert(258, "MZ");
    phone_prefix.insert(260, "ZM");
    phone_prefix.insert(261, "MG");
    phone_prefix.insert(262269, "YT");
    phone_prefix.insert(262639, "YT");
    phone_prefix.insert(262, "RE");
    phone_prefix.insert(263, "ZW");
    phone_prefix.insert(264, "NA");
    phone_prefix.insert(265, "MW");
    phone_prefix.insert(266, "LS");
    phone_prefix.insert(267, "BW");
    phone_prefix.insert(268, "SZ");
    phone_prefix.insert(269, "KM");
    phone_prefix.insert(27, "ZA");
    phone_prefix.insert(290, "SH");
    phone_prefix.insert(291, "ER");
    phone_prefix.insert(297, "AW");
    phone_prefix.insert(298, "FO");
    phone_prefix.insert(299, "GL");
    phone_prefix.insert(30, "GR");
    phone_prefix.insert(31, "NL");
    phone_prefix.insert(32, "BE");
    phone_prefix.insert(33, "FR");
    phone_prefix.insert(34, "ES");
    phone_prefix.insert(350, "GI");
    phone_prefix.insert(351, "PT");
    phone_prefix.insert(352, "LU");
    phone_prefix.insert(353, "IE");
    phone_prefix.insert(354, "IS");
    phone_prefix.insert(355, "AL");
    phone_prefix.insert(356, "MT");
    phone_prefix.insert(357, "CY");
    phone_prefix.insert(358, "FI");
    phone_prefix.insert(35818, "AX");
    phone_prefix.insert(359, "BG");
    phone_prefix.insert(36, "HU");
    phone_prefix.insert(370, "LT");
    phone_prefix.insert(371, "LV");
    phone_prefix.insert(372, "EE");
    phone_prefix.insert(373, "MD");
    phone_prefix.insert(374, "AM");
    phone_prefix.insert(375, "BY");
    phone_prefix.insert(376, "AD");
    phone_prefix.insert(377, "MC");
    phone_prefix.insert(378, "SM");
    phone_prefix.insert(379, "VA");
    phone_prefix.insert(380, "UA");
    phone_prefix.insert(381, "RS");
    phone_prefix.insert(382, "ME");
    phone_prefix.insert(385, "HR");
    phone_prefix.insert(386, "SI");
    phone_prefix.insert(387, "BA");
    phone_prefix.insert(389, "MK");
    phone_prefix.insert(39, "IT");
    phone_prefix.insert(40, "RO");
    phone_prefix.insert(41, "CH");
    phone_prefix.insert(420, "CZ");
    phone_prefix.insert(421, "SK");
    phone_prefix.insert(423, "LI");
    phone_prefix.insert(43, "AT");
    phone_prefix.insert(441481, "GG");
    phone_prefix.insert(441624, "IM");
    phone_prefix.insert(441534, "JE");
    phone_prefix.insert(44, "GB");
    phone_prefix.insert(45, "DK");
    phone_prefix.insert(46, "SE");
    phone_prefix.insert(47, "NO");
    phone_prefix.insert(4779, "SJ");
    phone_prefix.insert(48, "PL");
    phone_prefix.insert(49, "DE");
    phone_prefix.insert(500, "FK");
    phone_prefix.insert(501, "BZ");
    phone_prefix.insert(502, "GT");
    phone_prefix.insert(503, "SV");
    phone_prefix.insert(504, "HN");
    phone_prefix.insert(505, "NI");
    phone_prefix.insert(506, "CR");
    phone_prefix.insert(507, "PA");
    phone_prefix.insert(508, "PM");
    phone_prefix.insert(509, "HT");
    phone_prefix.insert(51, "PE");
    phone_prefix.insert(52, "MX");
    phone_prefix.insert(53, "CU");
    phone_prefix.insert(54, "AR");
    phone_prefix.insert(55, "BR");
    phone_prefix.insert(56, "CL");
    phone_prefix.insert(57, "CO");
    phone_prefix.insert(58, "VE");
    phone_prefix.insert(590, "GP");
    phone_prefix.insert(591, "BO");
    phone_prefix.insert(592, "GY");
    phone_prefix.insert(593, "EC");
    phone_prefix.insert(594, "GF");
    phone_prefix.insert(595, "PY");
    phone_prefix.insert(596, "MQ");
    phone_prefix.insert(597, "SR");
    phone_prefix.insert(598, "UY");
    phone_prefix.insert(5993, "BQ");
    phone_prefix.insert(5994, "BQ");
    phone_prefix.insert(5997, "BQ");
    phone_prefix.insert(5999, "CW");
    phone_prefix.insert(60, "MY");
    phone_prefix.insert(61, "AU");
    phone_prefix.insert(6189164, "CX");
    phone_prefix.insert(6189162, "CC");
    phone_prefix.insert(62, "ID");
    phone_prefix.insert(63, "PH");
    phone_prefix.insert(64, "NZ");
    phone_prefix.insert(65, "SG");
    phone_prefix.insert(66, "TH");
    phone_prefix.insert(670, "TL");
    phone_prefix.insert(6721, "AQ");
    phone_prefix.insert(6723, "NF");
    phone_prefix.insert(673, "BN");
    phone_prefix.insert(674, "NR");
    phone_prefix.insert(675, "PG");
    phone_prefix.insert(676, "TO");
    phone_prefix.insert(677, "SB");
    phone_prefix.insert(678, "VU");
    phone_prefix.insert(679, "FJ");
    phone_prefix.insert(680, "PW");
    phone_prefix.insert(681, "WF");
    phone_prefix.insert(682, "CK");
    phone_prefix.insert(683, "NU");
    phone_prefix.insert(685, "WS");
    phone_prefix.insert(686, "KI");
    phone_prefix.insert(687, "NC");
    phone_prefix.insert(688, "TV");
    phone_prefix.insert(689, "PF");
    phone_prefix.insert(690, "TK");
    phone_prefix.insert(691, "FM");
    phone_prefix.insert(692, "MH");
    phone_prefix.insert(7, "RU");
    phone_prefix.insert(76, "KZ");
    phone_prefix.insert(77, "KZ");
    phone_prefix.insert(800, "XT");
    phone_prefix.insert(808, "XS");
    phone_prefix.insert(81, "JP");
    phone_prefix.insert(82, "KR");
    phone_prefix.insert(84, "VN");
    phone_prefix.insert(850, "KP");
    phone_prefix.insert(852, "HK");
    phone_prefix.insert(853, "MO");
    phone_prefix.insert(855, "KH");
    phone_prefix.insert(856, "LA");
    phone_prefix.insert(86, "CN");
    phone_prefix.insert(870, "XN");
    phone_prefix.insert(878, "XP");
    phone_prefix.insert(880, "BD");
    phone_prefix.insert(881, "XG");
    phone_prefix.insert(882, "XV");
    phone_prefix.insert(883, "XV");
    phone_prefix.insert(886, "TW");
    phone_prefix.insert(90, "TR");
    phone_prefix.insert(91, "IN");
    phone_prefix.insert(92, "PK");
    phone_prefix.insert(93, "AF");
    phone_prefix.insert(94, "LK");
    phone_prefix.insert(95, "MM");
    phone_prefix.insert(960, "MV");
    phone_prefix.insert(961, "LB");
    phone_prefix.insert(962, "JO");
    phone_prefix.insert(963, "SY");
    phone_prefix.insert(964, "IQ");
    phone_prefix.insert(965, "KW");
    phone_prefix.insert(966, "SA");
    phone_prefix.insert(967, "YE");
    phone_prefix.insert(968, "OM");
    phone_prefix.insert(970, "PS");
    phone_prefix.insert(971, "AE");
    phone_prefix.insert(972, "IL");
    phone_prefix.insert(973, "BH");
    phone_prefix.insert(974, "QA");
    phone_prefix.insert(975, "BT");
    phone_prefix.insert(976, "MN");
    phone_prefix.insert(977, "NP");
    phone_prefix.insert(98, "IR");
    phone_prefix.insert(992, "TJ");
    phone_prefix.insert(993, "TM");
    phone_prefix.insert(994, "AZ");
    phone_prefix.insert(995, "GE");
    phone_prefix.insert(996, "KG");
    phone_prefix.insert(998, "UZ");

    for (prefix, country_name) in phone_prefix {
        // Generate a 10-digit phone number (just pretending)
        let prefix = prefix as u64;
        let prefix_len = prefix.ilog10() + 1;
        let sample_phone = prefix * 10_u64.pow(10 - prefix_len);

        let country = TerritoryCode::from_name(country_name);
        assert!(country.is_some());
        let country = country.unwrap();

        assert_eq!(Ok(country), TerritoryCode::from_phone_number(sample_phone));
        assert_eq!(
            country_name,
            find_iso_3166(&sample_phone.to_string()),
            "deprecated but functional"
        )
    }
}

#[test]
fn get_phone_code_equals_old_impl() {
    let mut iso_3166 = HashMap::new();
    iso_3166.insert("US", "1");
    iso_3166.insert("CA", "1");
    iso_3166.insert("AC", "247");
    iso_3166.insert("AD", "376");
    iso_3166.insert("AE", "971");
    iso_3166.insert("AF", "93");
    iso_3166.insert("AG", "1");
    iso_3166.insert("AI", "1");
    iso_3166.insert("AL", "355");
    iso_3166.insert("AM", "374");
    iso_3166.insert("AO", "244");
    iso_3166.insert("AQ", "672");
    iso_3166.insert("AR", "54");
    iso_3166.insert("AS", "1");
    iso_3166.insert("AT", "43");
    iso_3166.insert("AU", "61");
    iso_3166.insert("AW", "297");
    iso_3166.insert("AX", "35818");
    iso_3166.insert("AZ", "994");
    iso_3166.insert("BA", "387");
    iso_3166.insert("BB", "1");
    iso_3166.insert("BD", "880");
    iso_3166.insert("BE", "32");
    iso_3166.insert("BF", "226");
    iso_3166.insert("BG", "359");
    iso_3166.insert("BH", "973");
    iso_3166.insert("BI", "257");
    iso_3166.insert("BJ", "229");
    iso_3166.insert("BM", "1");
    iso_3166.insert("BN", "673");
    iso_3166.insert("BO", "591");
    iso_3166.insert("BQ", "599");
    iso_3166.insert("BR", "55");
    iso_3166.insert("BS", "1");
    iso_3166.insert("BT", "975");
    iso_3166.insert("BW", "267");
    iso_3166.insert("BY", "375");
    iso_3166.insert("BZ", "501");
    iso_3166.insert("CC", "6189162");
    iso_3166.insert("CD", "243");
    iso_3166.insert("CF", "236");
    iso_3166.insert("CG", "242");
    iso_3166.insert("CH", "41");
    iso_3166.insert("CI", "225");
    iso_3166.insert("CK", "682");
    iso_3166.insert("CL", "56");
    iso_3166.insert("CM", "237");
    iso_3166.insert("CN", "86");
    iso_3166.insert("CO", "57");
    iso_3166.insert("CR", "506");
    iso_3166.insert("CU", "53");
    iso_3166.insert("CV", "238");
    iso_3166.insert("CW", "5999");
    iso_3166.insert("CX", "6189164");
    iso_3166.insert("CY", "357");
    iso_3166.insert("CZ", "420");
    iso_3166.insert("DE", "49");
    iso_3166.insert("DJ", "253");
    iso_3166.insert("DK", "45");
    iso_3166.insert("DM", "1");
    iso_3166.insert("DO", "1");
    iso_3166.insert("DZ", "213");
    iso_3166.insert("EC", "593");
    iso_3166.insert("EE", "372");
    iso_3166.insert("EG", "20");
    iso_3166.insert("ER", "291");
    iso_3166.insert("ES", "34");
    iso_3166.insert("ET", "251");
    iso_3166.insert("FI", "358");
    iso_3166.insert("FJ", "679");
    iso_3166.insert("FK", "500");
    iso_3166.insert("FM", "691");
    iso_3166.insert("FO", "298");
    iso_3166.insert("FR", "33");
    iso_3166.insert("GA", "241");
    iso_3166.insert("GB", "44");
    iso_3166.insert("GD", "1");
    iso_3166.insert("GE", "995");
    iso_3166.insert("GF", "594");
    iso_3166.insert("GG", "441481");
    iso_3166.insert("GH", "233");
    iso_3166.insert("GI", "350");
    iso_3166.insert("GL", "299");
    iso_3166.insert("GM", "220");
    iso_3166.insert("GN", "224");
    iso_3166.insert("GP", "590");
    iso_3166.insert("GQ", "240");
    iso_3166.insert("GR", "30");
    iso_3166.insert("GT", "502");
    iso_3166.insert("GU", "1");
    iso_3166.insert("GW", "245");
    iso_3166.insert("GY", "592");
    iso_3166.insert("HK", "852");
    iso_3166.insert("HN", "504");
    iso_3166.insert("HR", "385");
    iso_3166.insert("HT", "509");
    iso_3166.insert("HU", "36");
    iso_3166.insert("ID", "62");
    iso_3166.insert("IE", "353");
    iso_3166.insert("IL", "972");
    iso_3166.insert("IM", "441624");
    iso_3166.insert("IN", "91");
    iso_3166.insert("IO", "246");
    iso_3166.insert("IQ", "964");
    iso_3166.insert("IR", "98");
    iso_3166.insert("IS", "354");
    iso_3166.insert("IT", "39");
    iso_3166.insert("JE", "441534");
    iso_3166.insert("JM", "1");
    iso_3166.insert("JO", "962");
    iso_3166.insert("JP", "81");
    iso_3166.insert("KE", "254");
    iso_3166.insert("KG", "996");
    iso_3166.insert("KH", "855");
    iso_3166.insert("KI", "686");
    iso_3166.insert("KM", "269");
    iso_3166.insert("KN", "1");
    iso_3166.insert("KP", "850");
    iso_3166.insert("KR", "82");
    iso_3166.insert("KW", "965");
    iso_3166.insert("KY", "1");
    iso_3166.insert("KZ", "7");
    iso_3166.insert("LA", "856");
    iso_3166.insert("LB", "961");
    iso_3166.insert("LC", "1");
    iso_3166.insert("LI", "423");
    iso_3166.insert("LK", "94");
    iso_3166.insert("LR", "231");
    iso_3166.insert("LS", "266");
    iso_3166.insert("LT", "370");
    iso_3166.insert("LU", "352");
    iso_3166.insert("LV", "371");
    iso_3166.insert("LY", "218");
    iso_3166.insert("MA", "212");
    iso_3166.insert("MC", "377");
    iso_3166.insert("MD", "373");
    iso_3166.insert("ME", "382");
    iso_3166.insert("MG", "261");
    iso_3166.insert("MH", "692");
    iso_3166.insert("MK", "389");
    iso_3166.insert("ML", "223");
    iso_3166.insert("MM", "95");
    iso_3166.insert("MN", "976");
    iso_3166.insert("MO", "853");
    iso_3166.insert("MP", "1");
    iso_3166.insert("MQ", "596");
    iso_3166.insert("MR", "222");
    iso_3166.insert("MS", "1");
    iso_3166.insert("MT", "356");
    iso_3166.insert("MU", "230");
    iso_3166.insert("MV", "960");
    iso_3166.insert("MW", "265");
    iso_3166.insert("MX", "52");
    iso_3166.insert("MY", "60");
    iso_3166.insert("MZ", "258");
    iso_3166.insert("NA", "264");
    iso_3166.insert("NC", "687");
    iso_3166.insert("NE", "227");
    iso_3166.insert("NF", "6723");
    iso_3166.insert("NG", "234");
    iso_3166.insert("NI", "505");
    iso_3166.insert("NL", "31");
    iso_3166.insert("NO", "47");
    iso_3166.insert("NP", "977");
    iso_3166.insert("NR", "674");
    iso_3166.insert("NU", "683");
    iso_3166.insert("NZ", "64");
    iso_3166.insert("OM", "968");
    iso_3166.insert("PA", "507");
    iso_3166.insert("PE", "51");
    iso_3166.insert("PF", "689");
    iso_3166.insert("PG", "675");
    iso_3166.insert("PH", "63");
    iso_3166.insert("PK", "92");
    iso_3166.insert("PL", "48");
    iso_3166.insert("PM", "508");
    iso_3166.insert("PR", "1");
    iso_3166.insert("PS", "970");
    iso_3166.insert("PT", "351");
    iso_3166.insert("PW", "680");
    iso_3166.insert("PY", "595");
    iso_3166.insert("QA", "974");
    iso_3166.insert("RE", "262");
    iso_3166.insert("RO", "40");
    iso_3166.insert("RS", "381");
    iso_3166.insert("RU", "7");
    iso_3166.insert("RW", "250");
    iso_3166.insert("SA", "966");
    iso_3166.insert("SB", "677");
    iso_3166.insert("SC", "248");
    iso_3166.insert("SD", "249");
    iso_3166.insert("SE", "46");
    iso_3166.insert("SG", "65");
    iso_3166.insert("SH", "290");
    iso_3166.insert("SI", "386");
    iso_3166.insert("SJ", "4779");
    iso_3166.insert("SK", "421");
    iso_3166.insert("SL", "232");
    iso_3166.insert("SM", "378");
    iso_3166.insert("SN", "221");
    iso_3166.insert("SO", "252");
    iso_3166.insert("SR", "597");
    iso_3166.insert("SS", "211");
    iso_3166.insert("ST", "239");
    iso_3166.insert("SV", "503");
    iso_3166.insert("SX", "1");
    iso_3166.insert("SY", "963");
    iso_3166.insert("SZ", "268");
    iso_3166.insert("TC", "1");
    iso_3166.insert("TD", "235");
    iso_3166.insert("TG", "228");
    iso_3166.insert("TH", "66");
    iso_3166.insert("TJ", "992");
    iso_3166.insert("TK", "690");
    iso_3166.insert("TL", "670");
    iso_3166.insert("TM", "993");
    iso_3166.insert("TN", "216");
    iso_3166.insert("TO", "676");
    iso_3166.insert("TR", "90");
    iso_3166.insert("TT", "1");
    iso_3166.insert("TV", "688");
    iso_3166.insert("TW", "886");
    iso_3166.insert("TZ", "255");
    iso_3166.insert("UA", "380");
    iso_3166.insert("UG", "256");
    iso_3166.insert("UY", "598");
    iso_3166.insert("UZ", "998");
    iso_3166.insert("VA", "379");
    iso_3166.insert("VC", "1");
    iso_3166.insert("VE", "58");
    iso_3166.insert("VG", "1");
    iso_3166.insert("VI", "1");
    iso_3166.insert("VN", "84");
    iso_3166.insert("VU", "678");
    iso_3166.insert("WF", "681");
    iso_3166.insert("WS", "685");
    iso_3166.insert("XG", "881");
    iso_3166.insert("XN", "870");
    iso_3166.insert("XP", "878");
    iso_3166.insert("XS", "808");
    iso_3166.insert("XT", "800");
    iso_3166.insert("XV", "882");
    iso_3166.insert("YE", "967");
    iso_3166.insert("YT", "262");
    iso_3166.insert("ZA", "27");
    iso_3166.insert("ZM", "260");
    iso_3166.insert("ZW", "263");

    for (country, phone_code) in iso_3166 {
        assert_eq!(
            phone_code,
            find_phone_cc(country),
            "deprecated but functional"
        );

        let country = TerritoryCode::from_name(country);
        assert!(country.is_some());
        let country = country.unwrap();
        assert!(country
            .calling_codes()
            .primary()
            .to_string()
            .starts_with(phone_code));
    }
}
